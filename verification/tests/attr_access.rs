// These tests all assume that the typechecker found an error while checking
// the outermost attribute access. If the attribute did not exist at all, only
// the primary message would be part of the final error. If it was an optional
// attribute without a guard, the help message is printed too.

use cedar_policy_validator::expr::{
    EntityType, EntityUID, Expr, ExprBuilder, ExprKind, Literal, Var,
};
use cedar_policy_validator::request_env::RequestEnv;
use cedar_policy_validator::types::{OpenTag, Type};
use cedar_policy_validator::validation_errors::AttributeAccess;

fn assert_message_and_help(attr_access: &Expr, msg: &str, help: &str) {
    let env = RequestEnv::DeclaredAction {
        principal: EntityType::Specified("Principal".into()),
        action: EntityUID::with_eid_and_type("Action", "action"),
        resource: EntityType::Specified("Resource".into()),
        context: Type::record_with_attributes(vec![], OpenTag::ClosedAttributes),
        principal_slot: None,
        resource_slot: None,
    };

    let ExprKind::GetAttr { expr, attr } = attr_access.expr_kind() else {
        panic!("Can only test `AttributeAccess::from_expr` for `GetAttr` expressions");
    };

    let access = AttributeAccess::from_expr(&env, expr, attr.clone());
    assert_eq!(
        access.to_string().as_str(),
        msg,
        "Error message did not match expected"
    );
    assert_eq!(
        access.suggested_has_guard().as_str(),
        help,
        "Suggested has guard did not match expected"
    );
}

#[test]
fn context_access() {
    // The expressions are built by hand because the entity case needs type
    // annotations, even though the other cases ignore them.
    let e = ExprBuilder::new().get_attr(ExprBuilder::new().var(Var::Context), "foo".into());
    assert_message_and_help(
        &e,
        "`foo` in context for Action::\"action\"",
        "context has foo",
    );
    let e = ExprBuilder::new().get_attr(e, "bar".into());
    assert_message_and_help(
        &e,
        "`foo.bar` in context for Action::\"action\"",
        "context.foo has bar",
    );
    let e = ExprBuilder::new().get_attr(e, "baz".into());
    assert_message_and_help(
        &e,
        "`foo.bar.baz` in context for Action::\"action\"",
        "context.foo.bar has baz",
    );
}

#[test]
fn entity_access() {
    let e = ExprBuilder::new().get_attr(
        ExprBuilder::with_data(Some(Type::named_entity_reference_from_str("User"))).val(
            Literal::EntityUID(EntityUID::with_eid_and_type("User", "alice")),
        ),
        "foo".into(),
    );
    assert_message_and_help(&e, "`foo` for entity type User", "e has foo");
    let e = ExprBuilder::new().get_attr(e, "bar".into());
    assert_message_and_help(&e, "`foo.bar` for entity type User", "e.foo has bar");
    let e = ExprBuilder::new().get_attr(e, "baz".into());
    assert_message_and_help(
        &e,
        "`foo.bar.baz` for entity type User",
        "e.foo.bar has baz",
    );
}

#[test]
fn entity_type_attr_access() {
    let e = ExprBuilder::with_data(Some(Type::named_entity_reference_from_str("Thing")))
        .get_attr(
            ExprBuilder::with_data(Some(Type::named_entity_reference_from_str("User")))
                .var(Var::Principal),
            "thing".into(),
        );
    assert_message_and_help(&e, "`thing` for entity type User", "e has thing");
    let e = ExprBuilder::new().get_attr(e, "bar".into());
    assert_message_and_help(&e, "`bar` for entity type Thing", "e has bar");
    let e = ExprBuilder::new().get_attr(e, "baz".into());
    assert_message_and_help(&e, "`bar.baz` for entity type Thing", "e.bar has baz");
}

#[test]
fn other_access() {
    let e = ExprBuilder::new().get_attr(
        ExprBuilder::new().ite(
            ExprBuilder::new().val(Literal::Bool(true)),
            ExprBuilder::new().record(vec![]),
            ExprBuilder::new().record(vec![]),
        ),
        "foo".into(),
    );
    assert_message_and_help(&e, "`foo`", "e has foo");
    let e = ExprBuilder::new().get_attr(e, "bar".into());
    assert_message_and_help(&e, "`foo.bar`", "e.foo has bar");
    let e = ExprBuilder::new().get_attr(e, "baz".into());
    assert_message_and_help(&e, "`foo.bar.baz`", "e.foo.bar has baz");
}
