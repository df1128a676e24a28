use cedar_policy_validator::expr::{
    CallStyle, EntityType, EntityUID, ExprBuilder, Literal, Loc, Var,
};
use cedar_policy_validator::text::decimal_text;
use cedar_policy_validator::type_order::type_set_of;
use cedar_policy_validator::types::{AttributeType, EntityLUB, OpenTag, Type};
use cedar_policy_validator::validation_errors::{
    AttributeAccess, EmptySetForbidden, FunctionArgumentValidation, HierarchyNotRespected,
    IncompatibleTypes, InvalidActionApplication, LubContext, LubHelp, MultiplyDefinedFunction,
    NonLitExtConstructor, TypeError, UndefinedFunction, UnexpectedType, UnexpectedTypeHelp,
    UnrecognizedActionId, UnrecognizedEntityType, UnsafeAttributeAccess,
    UnsafeOptionalAttributeAccess, UnspecifiedEntity, ValidationErrorKind, WrongCallStyle,
    WrongNumberArguments,
};

fn names(items: &[&str]) -> Vec<String> {
    items.iter().map(|s| s.to_string()).collect()
}

#[test]
fn unrecognized_entity_type_message_and_help() {
    let e = UnrecognizedEntityType {
        actual_entity_type: "Usr".to_string(),
        suggested_entity_type: Some("User".to_string()),
    };
    assert_eq!(e.to_string(), "unrecognized entity type `Usr`");
    assert_eq!(e.help(), Some("did you mean `User`?".to_string()));
    let e = UnrecognizedEntityType {
        actual_entity_type: "Usr".to_string(),
        suggested_entity_type: None,
    };
    assert_eq!(e.help(), None);
}

#[test]
fn unrecognized_action_id_message_and_help() {
    let e = UnrecognizedActionId {
        actual_action_id: "Action::\"vew\"".to_string(),
        suggested_action_id: Some("Action::\"view\"".to_string()),
    };
    assert_eq!(e.to_string(), "unrecognized action `Action::\"vew\"`");
    assert_eq!(e.help(), Some("did you mean `Action::\"view\"`?".to_string()));
    let e = UnrecognizedActionId {
        actual_action_id: "Action::\"vew\"".to_string(),
        suggested_action_id: None,
    };
    assert_eq!(e.help(), None);
}

#[test]
fn invalid_action_application_message_and_help() {
    let e = |p, r| InvalidActionApplication {
        would_in_fix_principal: p,
        would_in_fix_resource: r,
    };
    assert_eq!(
        e(false, false).to_string(),
        "unable to find an applicable action given the policy scope constraints"
    );
    assert_eq!(e(false, false).help(), None);
    assert_eq!(
        e(true, false).help(),
        Some("try replacing `==` with `in` in the principal clause".to_string())
    );
    assert_eq!(
        e(false, true).help(),
        Some("try replacing `==` with `in` in the resource clause".to_string())
    );
    assert_eq!(
        e(true, true).help(),
        Some(
            "try replacing `==` with `in` in the principal clause and the resource clause"
                .to_string()
        )
    );
}

#[test]
fn unspecified_entity_message_and_help() {
    let e = UnspecifiedEntity {
        entity_id: "x".to_string(),
    };
    assert_eq!(e.to_string(), "unspecified entity with id `x`");
    assert_eq!(
        e.help(),
        Some("unspecified entities cannot be used in policies".to_string())
    );
}

#[test]
fn unexpected_type_message_names_one_or_several_expected_types() {
    let e = UnexpectedType {
        expected: vec![Type::Long],
        actual: Type::String,
        help: None,
    };
    assert_eq!(e.to_string(), "unexpected type: expected Long but saw String");
    assert_eq!(e.help(), None);
    let e = UnexpectedType {
        expected: vec![Type::Boolean, Type::Long, Type::set(Type::Long)],
        actual: Type::String,
        help: Some(UnexpectedTypeHelp::TryUsingLike),
    };
    assert_eq!(
        e.to_string(),
        "unexpected type: expected Bool, or Long, or Set<Long> but saw String"
    );
    assert_eq!(
        e.help(),
        Some("try using `like` to examine the contents of a string".to_string())
    );
}

#[test]
fn unexpected_type_help_texts() {
    let texts = [
        (
            UnexpectedTypeHelp::TryUsingLike,
            "try using `like` to examine the contents of a string",
        ),
        (
            UnexpectedTypeHelp::TryUsingContains,
            "try using `contains`, `containsAny`, or `containsAll` to examine the contents of a set",
        ),
        (
            UnexpectedTypeHelp::TryUsingSingleContains,
            "try using `contains` to test if a single element is in a set",
        ),
        (
            UnexpectedTypeHelp::TryUsingHas,
            "try using `has` to test for an attribute",
        ),
        (
            UnexpectedTypeHelp::TryUsingIs,
            "try using `is` to test for an entity type",
        ),
        (
            UnexpectedTypeHelp::TryUsingIn,
            "try using `in` for entity hierarchy membership",
        ),
        (
            UnexpectedTypeHelp::TypeTestNotSupported,
            "Cedar only supports run time type tests for entities",
        ),
        (
            UnexpectedTypeHelp::ConcatenationNotSupported,
            "Cedar does not support string concatenation",
        ),
        (
            UnexpectedTypeHelp::SetOperationsNotSupported,
            "Cedar does not support computing the union, intersection, or difference of sets",
        ),
    ];
    for (h, text) in texts {
        assert_eq!(h.to_string(), text);
    }
}

#[test]
fn incompatible_types_message_enumerates_the_types() {
    let e = |types| IncompatibleTypes {
        types,
        hint: LubHelp::NoHelp,
        context: LubContext::SetElements,
    };
    assert_eq!(e(vec![]).to_string(), "the types  are not compatible");
    assert_eq!(e(vec![Type::Long]).to_string(), "the types Long are not compatible");
    assert_eq!(
        e(vec![Type::Long, Type::String]).to_string(),
        "the types Long and String are not compatible"
    );
    assert_eq!(
        e(vec![Type::Boolean, Type::Long, Type::String]).to_string(),
        "the types Bool, Long, and String are not compatible"
    );
    assert_eq!(
        e(vec![Type::True, Type::Boolean, Type::Long, Type::String]).to_string(),
        "the types True, Bool, Long, and String are not compatible"
    );
}

#[test]
fn incompatible_types_help_names_context_and_hint() {
    let e = IncompatibleTypes {
        types: vec![Type::Long, Type::String],
        hint: LubHelp::NoHelp,
        context: LubContext::SetElements,
    };
    assert_eq!(
        e.help(),
        Some(
            "elements of a set must have compatible types. Types must be exactly equal to be compatible"
                .to_string()
        )
    );
    let e = IncompatibleTypes {
        types: vec![],
        hint: LubHelp::EntityType,
        context: LubContext::Conditional,
    };
    assert_eq!(
        e.help(),
        Some(
            "both branches of a conditional must have compatible types. Different entity types are never compatible even when their attributes would be compatible"
                .to_string()
        )
    );
}

#[test]
fn lub_help_and_context_texts() {
    assert_eq!(
        LubHelp::AttributeQualifier.to_string(),
        "Corresponding attributes of compatible record types must have the same optionality, either both being required or both being optional"
    );
    assert_eq!(
        LubHelp::RecordWidth.to_string(),
        "Compatible record types must have exactly the same attributes"
    );
    assert_eq!(
        LubHelp::EntityRecord.to_string(),
        "Entity and record types are never compatible even when their attributes would be compatible"
    );
    assert_eq!(
        LubContext::Equality.to_string(),
        "both operands to a `==` expression"
    );
    assert_eq!(
        LubContext::Contains.to_string(),
        "elements of the first operand and the second operand to a `contains` expression"
    );
    assert_eq!(
        LubContext::ContainsAnyAll.to_string(),
        "elements of both set operands to a `containsAll` or `containsAny` expression"
    );
}

#[test]
fn unsafe_attribute_access_message_and_help() {
    let e = |suggestion: Option<&str>, may_exist| UnsafeAttributeAccess {
        attribute_access: AttributeAccess::Other(names(&["agee"])),
        suggestion: suggestion.map(|s| s.to_string()),
        may_exist,
    };
    assert_eq!(e(None, false).to_string(), "attribute `agee` not found");
    assert_eq!(e(None, false).help(), None);
    assert_eq!(
        e(Some("age"), false).help(),
        Some("did you mean `age`?".to_string())
    );
    assert_eq!(
        e(None, true).help(),
        Some(
            "there may be additional attributes that the validator is not able to reason about"
                .to_string()
        )
    );
    assert_eq!(
        e(Some("age"), true).help(),
        Some(
            "did you mean `age`? (there may also be additional attributes that the validator is not able to reason about)"
                .to_string()
        )
    );
}

#[test]
fn unsafe_optional_attribute_access_message_and_help() {
    let e = UnsafeOptionalAttributeAccess {
        attribute_access: AttributeAccess::EntityLUB(
            EntityLUB::single_entity("User".to_string()),
            names(&["nickname"]),
        ),
    };
    assert_eq!(
        e.to_string(),
        "unable to guarantee safety of access to optional attribute `nickname` for entity type User"
    );
    assert_eq!(
        e.help(),
        Some("try testing for the attribute with `e has nickname && ..`".to_string())
    );
}

#[test]
fn an_access_from_several_entity_types_names_them_all() {
    let lub = EntityLUB::single_entity("User".to_string())
        .union(&EntityLUB::single_entity("Admin".to_string()));
    let access = AttributeAccess::EntityLUB(lub, names(&["b", "a"]));
    assert_eq!(access.to_string(), "`a.b` for entity types Admin, User");
    assert_eq!(access.suggested_has_guard(), "e.a has b");
}

#[test]
fn an_access_without_attributes_suggests_a_placeholder() {
    let access = AttributeAccess::Other(vec![]);
    assert_eq!(access.suggested_has_guard(), "e has f");
    assert_eq!(access.to_string(), "``");
    let access = AttributeAccess::Context(EntityUID::with_eid_and_type("Action", "view"), vec![]);
    assert_eq!(access.suggested_has_guard(), "context has f");
}

#[test]
fn entity_identifiers_are_written_with_their_ids_escaped() {
    assert_eq!(
        EntityUID::with_eid_and_type("User", "alice").to_string(),
        "User::\"alice\""
    );
    assert_eq!(
        EntityUID::with_eid_and_type("NS::User", "a\"b\\c\nd").to_string(),
        "NS::User::\"a\\\"b\\\\c\\nd\""
    );
    let unspecified = EntityUID {
        ty: EntityType::Unspecified,
        eid: "x".to_string(),
    };
    assert_eq!(unspecified.to_string(), "<Unspecified>::\"x\"");
    let access = AttributeAccess::Context(
        EntityUID::with_eid_and_type("Action", "say \"hi\""),
        names(&["foo"]),
    );
    assert_eq!(
        access.to_string(),
        "`foo` in context for Action::\"say \\\"hi\\\"\""
    );
}

#[test]
fn function_error_messages() {
    assert_eq!(
        UndefinedFunction {
            name: "ipp".to_string()
        }
        .to_string(),
        "undefined extension function: ipp"
    );
    assert_eq!(
        MultiplyDefinedFunction {
            name: "ip".to_string()
        }
        .to_string(),
        "extension function defined multiple times: ip"
    );
    assert_eq!(
        WrongNumberArguments {
            expected: 1,
            actual: 12
        }
        .to_string(),
        "wrong number of arguments in extension function application. Expected 1, got 12"
    );
    assert_eq!(
        WrongCallStyle {
            expected: CallStyle::MethodStyle,
            actual: CallStyle::FunctionStyle
        }
        .to_string(),
        "wrong call style in extension function application. Expected method-style, got function-style"
    );
    assert_eq!(
        FunctionArgumentValidation {
            msg: "bad address".to_string()
        }
        .to_string(),
        "error during extension function argument validation: bad address"
    );
    assert_eq!(
        EmptySetForbidden {}.to_string(),
        "empty set literals are forbidden in policies"
    );
    assert_eq!(
        NonLitExtConstructor {}.to_string(),
        "extension constructors may not be called with non-literal expressions"
    );
    assert_eq!(
        NonLitExtConstructor {}.help(),
        Some(
            "consider applying extension constructors to literal values when constructing entity or context data"
                .to_string()
        )
    );
}

#[test]
fn hierarchy_not_respected_message_and_help() {
    let e = HierarchyNotRespected {
        in_lhs: Some("User".to_string()),
        in_rhs: Some("Doc".to_string()),
    };
    assert_eq!(
        e.to_string(),
        "operands to `in` do not respect the entity hierarchy"
    );
    assert_eq!(
        e.help(),
        Some("`User` cannot be a descendant of `Doc`".to_string())
    );
    let e = HierarchyNotRespected {
        in_lhs: Some("User".to_string()),
        in_rhs: None,
    };
    assert_eq!(e.help(), None);
}

#[test]
fn decimal_numerals() {
    assert_eq!(decimal_text(0), "0");
    assert_eq!(decimal_text(7), "7");
    assert_eq!(decimal_text(10), "10");
    assert_eq!(decimal_text(1234567890), "1234567890");
    assert_eq!(decimal_text(usize::MAX), usize::MAX.to_string());
}

#[test]
fn an_error_is_where_it_says_or_where_its_expression_is() {
    let loc = Loc::new(3, 7, "if x then y".to_string());
    let other = Loc::new(0, 2, "if x then y".to_string());
    let at = ExprBuilder::new()
        .with_source_loc(loc.clone())
        .var(Var::Principal);
    let err = TypeError::undefined_extension(at.clone(), "f".to_string());
    assert_eq!(err.source_loc(), Some(&loc));
    assert_eq!(err.labels(), Some((3, 7)));
    assert_eq!(err.source_code(), Some(&"if x then y".to_string()));
    let mut moved = TypeError::undefined_extension(at.clone(), "f".to_string());
    moved.source_loc = Some(other.clone());
    assert_eq!(moved.source_loc(), Some(&other));
    let nowhere = TypeError::undefined_extension(ExprBuilder::new().var(Var::Principal), "f".to_string());
    assert_eq!(nowhere.source_loc(), None);
    assert_eq!(nowhere.labels(), None);
    assert_eq!(nowhere.source_code(), None);
    let set = TypeError::empty_set_forbidden(at);
    assert_eq!(set.on_expr, None);
    assert_eq!(set.source_loc(), Some(&loc));
    let (kind, location) = err.kind_and_location();
    assert_eq!(
        kind,
        ValidationErrorKind::UndefinedFunction(UndefinedFunction {
            name: "f".to_string()
        })
    );
    assert_eq!(location, Some(loc));
}

#[test]
fn an_error_reads_as_its_kind_does() {
    let err = TypeError::unrecognized_entity_type("Usr".to_string(), Some("User".to_string()));
    assert_eq!(err.to_string(), "unrecognized entity type `Usr`");
    assert_eq!(err.help(), Some("did you mean `User`?".to_string()));
    assert_eq!(
        err.type_error_kind(),
        ValidationErrorKind::UnrecognizedEntityType(UnrecognizedEntityType {
            actual_entity_type: "Usr".to_string(),
            suggested_entity_type: Some("User".to_string()),
        })
    );
    assert_eq!(
        ValidationErrorKind::ImpossiblePolicy.to_string(),
        "policy is impossible: the policy expression evaluates to false for all valid requests"
    );
    assert_eq!(ValidationErrorKind::ImpossiblePolicy.help(), None);
}

#[test]
fn the_types_of_an_error_are_a_set_in_ascending_order() {
    let e = ExprBuilder::new().val(Literal::Long(1));
    let err = TypeError::incompatible_types(
        e.clone(),
        vec![Type::String, Type::Long, Type::String, Type::Long, Type::True],
        LubHelp::NoHelp,
        LubContext::SetElements,
    );
    match &err.kind {
        ValidationErrorKind::IncompatibleTypes(k) => {
            assert_eq!(k.types, vec![Type::True, Type::Long, Type::String]);
        }
        _ => panic!("wrong kind"),
    }
    assert_eq!(
        err,
        TypeError::incompatible_types(
            e.clone(),
            vec![Type::True, Type::String, Type::Long],
            LubHelp::NoHelp,
            LubContext::SetElements,
        )
    );
    let two = TypeError::incompatible_types(
        e.clone(),
        vec![Type::String, Type::Long],
        LubHelp::NoHelp,
        LubContext::SetElements,
    );
    assert_eq!(two.to_string(), "the types Long and String are not compatible");
    let err = TypeError::expected_one_of_types(
        e.clone(),
        vec![Type::Long, Type::Long],
        Type::String,
        None,
    );
    assert_eq!(err, TypeError::expected_type(e, Type::Long, Type::String, None));
}

#[test]
fn copies_of_errors_are_the_same_error() {
    let e = ExprBuilder::new().get_attr(ExprBuilder::new().var(Var::Principal), "a".to_string());
    let errors = vec![
        TypeError::unrecognized_entity_type("A".to_string(), None),
        TypeError::unrecognized_action_id("A".to_string(), Some("B".to_string())),
        TypeError::invalid_action_application(true, false),
        TypeError::unspecified_entity("x".to_string()),
        TypeError::expected_type(e.clone(), Type::Long, Type::String, None),
        TypeError::incompatible_types(
            e.clone(),
            vec![Type::Long, Type::String],
            LubHelp::NoHelp,
            LubContext::Equality,
        ),
        TypeError::unsafe_attribute_access(
            e.clone(),
            AttributeAccess::Other(names(&["a"])),
            None,
            true,
        ),
        TypeError::unsafe_optional_attribute_access(
            e.clone(),
            AttributeAccess::Other(names(&["a"])),
        ),
        TypeError::undefined_extension(e.clone(), "f".to_string()),
        TypeError::multiply_defined_extension(e.clone(), "f".to_string()),
        TypeError::wrong_number_args(e.clone(), 1, 2),
        TypeError::wrong_call_style(e.clone(), CallStyle::MethodStyle, CallStyle::FunctionStyle),
        TypeError::function_argument_validation(e.clone(), "m".to_string()),
        TypeError::empty_set_forbidden(e.clone()),
        TypeError::non_lit_ext_constructor(e.clone()),
        TypeError::hierarchy_not_respected(e.clone(), Some("A".to_string()), None),
    ];
    for (i, a) in errors.iter().enumerate() {
        assert_eq!(&a.clone(), a);
        for (j, b) in errors.iter().enumerate() {
            assert_eq!(a.same_as(b), i == j);
            assert_eq!(a.kind.same_as(&b.kind), i == j);
        }
    }
}

fn in_order(types: Vec<Type>) -> Vec<Type> {
    type_set_of(types)
}

#[test]
fn types_are_ordered_by_kind_and_then_by_their_parts() {
    let entity = |n: &str| Type::named_entity_reference(n.to_string());
    let record = |attrs: Vec<(&str, Type, bool)>, open: bool| {
        Type::record_with_attributes(
            attrs
                .into_iter()
                .map(|(n, t, r)| {
                    (
                        n.to_string(),
                        AttributeType {
                            attr_type: t,
                            is_required: r,
                        },
                    )
                })
                .collect(),
            if open {
                OpenTag::OpenAttributes
            } else {
                OpenTag::ClosedAttributes
            },
        )
    };
    let ascending = vec![
        Type::Never,
        Type::True,
        Type::False,
        Type::Boolean,
        Type::Long,
        Type::String,
        Type::set(Type::Never),
        Type::set(Type::Long),
        Type::set(Type::set(Type::Long)),
        record(vec![], false),
        record(vec![], true),
        record(vec![("a", Type::Long, false)], false),
        record(vec![("a", Type::Long, true)], false),
        record(vec![("a", Type::Long, true)], true),
        record(vec![("a", Type::Long, true), ("b", Type::Long, true)], false),
        record(vec![("a", Type::String, true)], false),
        record(vec![("b", Type::Never, true)], false),
        entity("Admin"),
        Type::Entity(
            EntityLUB::single_entity("Admin".to_string())
                .union(&EntityLUB::single_entity("User".to_string())),
        ),
        entity("User"),
        Type::ActionEntity(EntityLUB::single_entity("Action".to_string())),
        Type::AnyEntity,
        Type::Extension("decimal".to_string()),
        Type::Extension("ipaddr".to_string()),
    ];
    for (i, a) in ascending.iter().enumerate() {
        for (j, b) in ascending.iter().enumerate() {
            assert_eq!(a.comes_before(b), i < j, "{:?} {:?}", a, b);
        }
    }
    let mut shuffled: Vec<Type> = ascending.iter().rev().cloned().collect();
    shuffled.extend(ascending.iter().cloned());
    assert_eq!(in_order(shuffled), ascending);
    assert_eq!(in_order(vec![]), vec![]);
}
