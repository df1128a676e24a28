//! The typing rules for literals, request variables and template slots.

use vstd::prelude::*;
use crate::expr::{
    EntityType, EntityUID, Expr, ExprKind, Literal, SlotId, SpecEntityType, SpecEntityUID,
    SpecExpr, SpecExprKind, SpecLiteral, Var,
};
use crate::fuzzy_match::{fuzzy_search, suggestion};
use crate::request_env::{RequestEnv, SpecRequestEnv};
use crate::schema::{SpecSchema, ValidatorSchema};
use crate::text::texts;
use crate::typecheck::answer::{answer, errors_view, Answer, SpecAnswer};
use crate::types::{OpenTag, SpecAttribute, SpecType, Type};
use crate::validation_errors::{SpecErrorKind, SpecTypeError, TypeError};

verus! {

/// The names of the entity types of a schema, in its order.
pub open spec fn entity_names(schema: SpecSchema) -> Seq<Seq<char>> {
    Seq::new(schema.entities.len(), |i: int| schema.entities[i].name)
}

/// The actions of a schema as messages name them, in its order.
pub open spec fn action_texts(schema: SpecSchema) -> Seq<Seq<char>> {
    Seq::new(schema.actions.len(), |i: int| schema.actions[i].name.text())
}

/// The index of the first action of the schema at or after `from` whose
/// entity type is named `name`, or the number of actions if there is none.
pub open spec fn action_type_index(schema: SpecSchema, name: Seq<char>, from: nat) -> nat
    decreases schema.actions.len() - from,
{
    if from < schema.actions.len() && schema.actions[from as int].name.ty
        != SpecEntityType::Specified(name) {
        action_type_index(schema, name, from + 1)
    } else {
        from
    }
}

/// Whether some action of the schema has the entity type named `name`.
pub open spec fn is_action_type(schema: SpecSchema, name: Seq<char>) -> bool {
    action_type_index(schema, name, 0) < schema.actions.len()
}

/// The type of the entities of type `t`.
pub open spec fn entity_type_of(t: SpecEntityType) -> SpecType {
    match t {
        SpecEntityType::Specified(name) => SpecType::Entity(seq![name]),
        SpecEntityType::Unspecified => SpecType::AnyEntity,
    }
}

/// The type of the action entities of type `t`.
pub open spec fn action_type_of(t: SpecEntityType) -> SpecType {
    match t {
        SpecEntityType::Specified(name) => SpecType::ActionEntity(seq![name]),
        SpecEntityType::Unspecified => SpecType::AnyEntity,
    }
}

/// The type and the errors of an entity literal: the entity must have a type,
/// and the schema must declare the action, if its type is that of actions, or
/// else its entity type.
pub open spec fn entity_literal(schema: SpecSchema, uid: SpecEntityUID) -> (
    SpecType,
    Seq<SpecTypeError>,
) {
    match uid.ty {
        SpecEntityType::Unspecified => (
            SpecType::Never,
            seq![SpecTypeError::bare(SpecErrorKind::UnspecifiedEntity { entity_id: uid.eid })],
        ),
        SpecEntityType::Specified(name) => {
            if schema.get_action_id(uid) is Some {
                (SpecType::ActionEntity(seq![name]), Seq::empty())
            } else if is_action_type(schema, name) {
                (
                    SpecType::Never,
                    seq![
                        SpecTypeError::bare(
                            SpecErrorKind::UnrecognizedActionId {
                                actual_action_id: uid.text(),
                                suggested_action_id: suggestion(uid.text(), action_texts(schema)),
                            },
                        ),
                    ],
                )
            } else if schema.get_entity_type(name) is Some {
                (SpecType::Entity(seq![name]), Seq::empty())
            } else {
                (
                    SpecType::Never,
                    seq![
                        SpecTypeError::bare(
                            SpecErrorKind::UnrecognizedEntityType {
                                actual_entity_type: name,
                                suggested_entity_type: suggestion(name, entity_names(schema)),
                            },
                        ),
                    ],
                )
            }
        },
    }
}

/// The type and the errors of a literal.
pub open spec fn literal(schema: SpecSchema, l: SpecLiteral) -> (SpecType, Seq<SpecTypeError>) {
    match l {
        SpecLiteral::Bool(true) => (SpecType::True, Seq::empty()),
        SpecLiteral::Bool(false) => (SpecType::False, Seq::empty()),
        SpecLiteral::Long(_) => (SpecType::Long, Seq::empty()),
        SpecLiteral::String(_) => (SpecType::String, Seq::empty()),
        SpecLiteral::EntityUID(uid) => entity_literal(schema, uid),
    }
}

/// The answer for the literal `l` that stands at `e`.
pub open spec fn literal_answer(schema: SpecSchema, e: SpecExpr, l: SpecLiteral) -> SpecAnswer {
    answer(e, SpecExprKind::Lit(l), literal(schema, l).0, literal(schema, l).1)
}

/// The type of a request variable.
pub open spec fn var_type(env: SpecRequestEnv, v: Var) -> SpecType {
    match env {
        SpecRequestEnv::DeclaredAction { principal, action, resource, context, .. } => match v {
            Var::Principal => entity_type_of(principal),
            Var::Action => action_type_of(action.ty),
            Var::Resource => entity_type_of(resource),
            Var::Context => context,
        },
        SpecRequestEnv::UndeclaredAction => match v {
            Var::Context => SpecType::Record { attrs: Seq::<SpecAttribute>::empty(), open: true },
            _ => SpecType::AnyEntity,
        },
    }
}

/// The type of what fills a slot: an entity of the type that the
/// environment binds the slot to, or else any entity.
pub open spec fn slot_type(env: SpecRequestEnv, s: SlotId) -> SpecType {
    match env {
        SpecRequestEnv::DeclaredAction { principal_slot, resource_slot, .. } => {
            let bound = match s {
                SlotId::Principal => principal_slot,
                SlotId::Resource => resource_slot,
            };
            match bound {
                Some(t) => entity_type_of(t),
                None => SpecType::AnyEntity,
            }
        },
        SpecRequestEnv::UndeclaredAction => SpecType::AnyEntity,
    }
}

/// The names of the entity types of `schema`.
pub fn entity_type_names(schema: &ValidatorSchema) -> (out: Vec<String>)
    ensures
        texts(&out) == entity_names(schema@),
{
    let mut out: Vec<String> = Vec::new();
    let mut i: usize = 0;
    while i < schema.entity_types.len()
        invariant
            i <= schema.entity_types.len(),
            out@.len() == i,
            forall|j: int| 0 <= j < i ==> (#[trigger] out@[j])@ == schema.entity_types@[j].name@,
        decreases schema.entity_types.len() - i,
    {
        out.push(schema.entity_types[i].name.clone());
        i += 1;
    }
    assert(texts(&out) =~= entity_names(schema@));
    out
}

/// The actions of `schema` as messages name them.
pub fn action_names(schema: &ValidatorSchema) -> (out: Vec<String>)
    ensures
        texts(&out) == action_texts(schema@),
{
    let mut out: Vec<String> = Vec::new();
    let mut i: usize = 0;
    while i < schema.action_ids.len()
        invariant
            i <= schema.action_ids.len(),
            out@.len() == i,
            forall|j: int|
                0 <= j < i ==> (#[trigger] out@[j])@ == schema.action_ids@[j].name@.text(),
        decreases schema.action_ids.len() - i,
    {
        out.push(schema.action_ids[i].name.to_string());
        i += 1;
    }
    assert(texts(&out) =~= action_texts(schema@));
    out
}

/// Whether some action of `schema` has the entity type named `name`.
pub fn has_action_type(schema: &ValidatorSchema, name: &String) -> (out: bool)
    ensures
        out == is_action_type(schema@, name@),
{
    let mut i: usize = 0;
    while i < schema.action_ids.len()
        invariant
            i <= schema.action_ids.len(),
            action_type_index(schema@, name@, i as nat) == action_type_index(schema@, name@, 0),
        decreases schema.action_ids.len() - i,
    {
        let found = match &schema.action_ids[i].name.ty {
            EntityType::Specified(n) => *n == *name,
            EntityType::Unspecified => false,
        };
        if found {
            return true;
        }
        i += 1;
    }
    false
}

/// The type of the entities of type `t`.
pub fn entity_reference(t: &EntityType) -> (out: Type)
    ensures
        out@ == entity_type_of(t@),
{
    match t {
        EntityType::Specified(name) => Type::named_entity_reference(name.clone()),
        EntityType::Unspecified => Type::AnyEntity,
    }
}

/// The type of the action entities of type `t`.
pub fn action_reference(t: &EntityType) -> (out: Type)
    ensures
        out@ == action_type_of(t@),
{
    match t {
        EntityType::Specified(name) => Type::ActionEntity(
            crate::types::EntityLUB::single_entity(name.clone()),
        ),
        EntityType::Unspecified => Type::AnyEntity,
    }
}

/// The type and the errors of the entity literal `uid`.
pub fn check_entity_literal(schema: &ValidatorSchema, uid: &EntityUID) -> (out: (
    Type,
    Vec<TypeError>,
))
    ensures
        out.0@ == entity_literal(schema@, uid@).0,
        errors_view(out.1@) == entity_literal(schema@, uid@).1,
{
    let mut errors: Vec<TypeError> = Vec::new();
    assert(errors_view(errors@) =~= Seq::<SpecTypeError>::empty());
    match &uid.ty {
        EntityType::Unspecified => {
            let err = TypeError::unspecified_entity(uid.eid.clone());
            errors.push(err);
            assert(errors_view(errors@) =~= seq![err@]);
            (Type::Never, errors)
        },
        EntityType::Specified(name) => {
            if schema.get_action_id(uid).is_some() {
                (action_reference(&uid.ty), errors)
            } else if has_action_type(schema, name) {
                let actual = uid.to_string();
                let suggested = fuzzy_search(&actual, &action_names(schema));
                let err = TypeError::unrecognized_action_id(actual, suggested);
                errors.push(err);
                assert(errors_view(errors@) =~= seq![err@]);
                (Type::Never, errors)
            } else if schema.get_entity_type(name).is_some() {
                (entity_reference(&uid.ty), errors)
            } else {
                let suggested = fuzzy_search(name, &entity_type_names(schema));
                let err = TypeError::unrecognized_entity_type(name.clone(), suggested);
                errors.push(err);
                assert(errors_view(errors@) =~= seq![err@]);
                (Type::Never, errors)
            }
        },
    }
}

/// The answer for the literal `l` that stands at `e`.
pub fn check_literal(schema: &ValidatorSchema, e: &Expr, l: &Literal) -> (out: Answer)
    ensures
        out@ == literal_answer(schema@, e@, l@),
{
    let (ty, errors) = match l {
        Literal::Bool(true) => (Type::True, Vec::new()),
        Literal::Bool(false) => (Type::False, Vec::new()),
        Literal::Long(_) => (Type::Long, Vec::new()),
        Literal::String(_) => (Type::String, Vec::new()),
        Literal::EntityUID(uid) => check_entity_literal(schema, uid),
    };
    assert(errors_view(errors@) =~= literal(schema@, l@).1);
    Answer::plain(e, ExprKind::Lit(l.clone()), ty, errors)
}

/// The type of the request variable `v`.
pub fn check_var(env: &RequestEnv, v: Var) -> (out: Type)
    ensures
        out@ == var_type(env@, v),
{
    match env {
        RequestEnv::DeclaredAction { principal, action, resource, context, .. } => match v {
            Var::Principal => entity_reference(principal),
            Var::Action => action_reference(&action.ty),
            Var::Resource => entity_reference(resource),
            Var::Context => context.clone(),
        },
        RequestEnv::UndeclaredAction => match v {
            Var::Context => {
                let out = Type::record_with_attributes(Vec::new(), OpenTag::OpenAttributes);
                assert(out@ =~= (SpecType::Record {
                    attrs: Seq::<SpecAttribute>::empty(),
                    open: true,
                })) by {
                    assert(crate::types::attributes_view(Seq::empty()) =~= Seq::<
                        SpecAttribute,
                    >::empty());
                }
                out
            },
            _ => Type::AnyEntity,
        },
    }
}

/// The type of what fills the slot `s`.
pub fn check_slot(env: &RequestEnv, s: SlotId) -> (out: Type)
    ensures
        out@ == slot_type(env@, s),
{
    match env {
        RequestEnv::DeclaredAction { principal_slot, resource_slot, .. } => {
            let bound = match s {
                SlotId::Principal => principal_slot,
                SlotId::Resource => resource_slot,
            };
            match bound {
                Some(t) => entity_reference(t),
                None => Type::AnyEntity,
            }
        },
        RequestEnv::UndeclaredAction => Type::AnyEntity,
    }
}

} // verus!
