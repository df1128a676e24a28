//! The typing rules for attribute access and for `has`, and the lookup of
//! attributes in record and entity types that both rest on.

use vstd::prelude::*;
use crate::capability::CapabilitySet;
use crate::expr::{shape, EntityType, Expr, ExprKind, SpecEntityType, SpecExpr, SpecExprKind};
use crate::fuzzy_match::{fuzzy_search, suggestion};
use crate::request_env::{RequestEnv, SpecRequestEnv};
use crate::schema::{SpecSchema, ValidatorSchema};
use crate::text::texts;
use crate::typecheck::answer::{
    add_error, annotated, answer, errors_view, unexpected, Answer, SpecAnswer,
};
use crate::typecheck::operators::add_unexpected;
use crate::types::{
    attributes_view, find_attr, find_attribute, record_view, types_view, AttributeType,
    EntityLUB, OpenTag, SpecAttribute, SpecType, Type,
};
use crate::validation_errors::{
    access_from, AttributeAccess, SpecErrorKind, SpecTypeError, TypeError,
};

verus! {

/// What a type says of an attribute.
pub enum SpecLookup {
    /// Values of the type have the attribute, of this type; always, if the
    /// flag is set, and else only sometimes.
    Declared(SpecType, bool),
    /// Values of the type do not have the attribute.
    Absent,
    /// The type does not say.
    Unknown,
}

/// What a type says of an attribute.
#[derive(Debug)]
pub enum Lookup {
    /// Values of the type have the attribute.
    Declared(AttributeType),
    /// Values of the type do not have the attribute.
    Absent,
    /// The type does not say.
    Unknown,
}

impl View for Lookup {
    type V = SpecLookup;

    open spec fn view(&self) -> SpecLookup {
        match self {
            Lookup::Declared(t) => SpecLookup::Declared(t.attr_type@, t.is_required),
            Lookup::Absent => SpecLookup::Absent,
            Lookup::Unknown => SpecLookup::Unknown,
        }
    }
}

/// What a record with the attributes `attrs` says of the attribute `name`.
pub open spec fn lookup_record(attrs: Seq<SpecAttribute>, open: bool, name: Seq<char>) -> SpecLookup {
    match find_attr(attrs, name) {
        Some(a) => SpecLookup::Declared(a.ty, a.required),
        None => if open {
            SpecLookup::Unknown
        } else {
            SpecLookup::Absent
        },
    }
}

/// What the entity type named `name` says of the attribute `attr`.
pub open spec fn lookup_entity(schema: SpecSchema, name: Seq<char>, attr: Seq<char>) -> SpecLookup {
    match schema.get_entity_type(name) {
        Some(d) => lookup_record(d.attrs, d.open, attr),
        None => SpecLookup::Unknown,
    }
}

/// What several types say together, after `seen` from the earlier ones and
/// `next` from one more: the same, where they agree, and else nothing.
pub open spec fn agree(seen: Option<SpecLookup>, next: SpecLookup) -> Option<SpecLookup> {
    match seen {
        None => Some(next),
        Some(p) => if p == next {
            Some(p)
        } else {
            Some(SpecLookup::Unknown)
        },
    }
}

/// What the first `n` of the entity types `names` say together of the
/// attribute `attr`.
pub open spec fn lookup_entities(
    schema: SpecSchema,
    names: Seq<Seq<char>>,
    attr: Seq<char>,
    n: nat,
) -> Option<SpecLookup>
    decreases n,
{
    if n == 0 || n > names.len() {
        None
    } else {
        agree(
            lookup_entities(schema, names, attr, (n - 1) as nat),
            lookup_entity(schema, names[n - 1], attr),
        )
    }
}

/// Whether the action entity type `t` is one of `names`.
pub open spec fn is_action_of(t: SpecEntityType, names: Seq<Seq<char>>) -> bool {
    match t {
        SpecEntityType::Specified(name) => names.contains(name),
        SpecEntityType::Unspecified => false,
    }
}

/// What those of the first `n` actions of the schema that are of one of the
/// types `names` say together of the attribute `attr`.
pub open spec fn lookup_actions(
    schema: SpecSchema,
    names: Seq<Seq<char>>,
    attr: Seq<char>,
    n: nat,
) -> Option<SpecLookup>
    decreases n,
{
    if n == 0 || n > schema.actions.len() {
        None
    } else {
        let before = lookup_actions(schema, names, attr, (n - 1) as nat);
        let a = schema.actions[n - 1];
        if is_action_of(a.name.ty, names) {
            agree(before, lookup_record(a.attrs, false, attr))
        } else {
            before
        }
    }
}

/// What has been found out, where anything has.
pub open spec fn settled(l: Option<SpecLookup>) -> SpecLookup {
    match l {
        Some(x) => x,
        None => SpecLookup::Unknown,
    }
}

/// What the type `t` says of the attribute `attr`. A record type says what
/// it lists; several entity types say what they all say alike.
pub open spec fn attribute_lookup(schema: SpecSchema, t: SpecType, attr: Seq<char>) -> SpecLookup {
    match t {
        SpecType::Record { attrs, open } => lookup_record(attrs, open, attr),
        SpecType::Entity(names) => settled(lookup_entities(schema, names, attr, names.len())),
        SpecType::ActionEntity(names) => settled(
            lookup_actions(schema, names, attr, schema.actions.len()),
        ),
        _ => SpecLookup::Unknown,
    }
}

/// The type of an attribute of values of type `t`, where `t` declares it.
pub open spec fn attribute_type(schema: SpecSchema, t: SpecType, attr: Seq<char>) -> Option<
    (SpecType, bool),
> {
    match attribute_lookup(schema, t, attr) {
        SpecLookup::Declared(ty, required) => Some((ty, required)),
        _ => None,
    }
}

/// Whether one of the first `n` of the entity types `names` is declared
/// with attributes beyond those it lists.
pub open spec fn some_open(schema: SpecSchema, names: Seq<Seq<char>>, n: nat) -> bool
    decreases n,
{
    if n == 0 || n > names.len() {
        false
    } else {
        some_open(schema, names, (n - 1) as nat) || match schema.get_entity_type(names[n - 1]) {
            Some(d) => d.open,
            None => false,
        }
    }
}

/// Whether values of type `t` may have attributes that `t` does not list:
/// those of an open record type, of `AnyEntity`, and of an entity type whose
/// attributes the schema leaves open.
pub open spec fn may_have_more(schema: SpecSchema, t: SpecType) -> bool {
    match t {
        SpecType::Record { open, .. } => open,
        SpecType::AnyEntity => true,
        SpecType::Entity(names) => some_open(schema, names, names.len()),
        _ => false,
    }
}

/// Whether values of type `t` can have attributes.
pub open spec fn has_attributes(t: SpecType) -> bool {
    t is Record || t is Entity || t is ActionEntity || t is AnyEntity || t is Never
}

/// The names of the attributes `attrs`.
pub open spec fn attr_names(attrs: Seq<SpecAttribute>) -> Seq<Seq<char>> {
    Seq::new(attrs.len(), |i: int| attrs[i].name)
}

/// The names of the attributes of the entity type named `name`.
pub open spec fn entity_attr_names(schema: SpecSchema, name: Seq<char>) -> Seq<Seq<char>> {
    match schema.get_entity_type(name) {
        Some(d) => attr_names(d.attrs),
        None => Seq::empty(),
    }
}

/// The names of the attributes of the first `n` of the entity types `names`.
pub open spec fn entities_attr_names(schema: SpecSchema, names: Seq<Seq<char>>, n: nat) -> Seq<
    Seq<char>,
>
    decreases n,
{
    if n == 0 || n > names.len() {
        Seq::empty()
    } else {
        entities_attr_names(schema, names, (n - 1) as nat) + entity_attr_names(
            schema,
            names[n - 1],
        )
    }
}

/// The names of the attributes of those of the first `n` actions of the
/// schema that are of one of the types `names`.
pub open spec fn actions_attr_names(schema: SpecSchema, names: Seq<Seq<char>>, n: nat) -> Seq<
    Seq<char>,
>
    decreases n,
{
    if n == 0 || n > schema.actions.len() {
        Seq::empty()
    } else {
        let before = actions_attr_names(schema, names, (n - 1) as nat);
        let a = schema.actions[n - 1];
        if is_action_of(a.name.ty, names) {
            before + attr_names(a.attrs)
        } else {
            before
        }
    }
}

/// The names of the attributes that the type `t` declares.
pub open spec fn attribute_names(schema: SpecSchema, t: SpecType) -> Seq<Seq<char>> {
    match t {
        SpecType::Record { attrs, .. } => attr_names(attrs),
        SpecType::Entity(names) => entities_attr_names(schema, names, names.len()),
        SpecType::ActionEntity(names) => actions_attr_names(schema, names, schema.actions.len()),
        _ => Seq::empty(),
    }
}

/// The types that have attributes, as errors name them.
pub open spec fn attribute_bearers() -> Seq<SpecType> {
    seq![
        SpecType::AnyEntity,
        SpecType::Record { attrs: Seq::<SpecAttribute>::empty(), open: true },
    ]
}

/// The error for an access to an attribute that is not known to exist.
pub open spec fn missing_attribute(
    schema: SpecSchema,
    env: SpecRequestEnv,
    e: SpecExpr,
    typed: SpecExpr,
    t: SpecType,
    attr: Seq<char>,
    may_exist: bool,
) -> SpecTypeError {
    SpecTypeError::on(
        e,
        SpecErrorKind::UnsafeAttributeAccess {
            attribute_access: access_from(env, typed, seq![attr]),
            suggestion: suggestion(attr, attribute_names(schema, t)),
            may_exist,
        },
    )
}

/// The answer for `child.attr` at `e`, where `a` is the answer for `child`
/// and `caps` holds what is known where `e` stands. A required attribute
/// gives its type. So does an optional one, but it is an error unless its
/// presence is known. An attribute that the type of `child` does not declare
/// is an error, which says whether the attribute may exist all the same;
/// and so is a `child` that cannot have attributes.
pub open spec fn get_attr_answer(
    schema: SpecSchema,
    env: SpecRequestEnv,
    caps: Set<(SpecExpr, Seq<char>)>,
    e: SpecExpr,
    child: SpecExpr,
    attr: Seq<char>,
    a: SpecAnswer,
) -> SpecAnswer {
    let kind = SpecExprKind::GetAttr { expr: Box::new(a.typed), attr };
    let t = a.ty();
    if !has_attributes(t) {
        answer(
            e,
            kind,
            SpecType::Never,
            a.errors.push(unexpected(child, attribute_bearers(), t, None)),
        )
    } else if t is Never {
        answer(e, kind, SpecType::Never, a.errors)
    } else {
        match attribute_lookup(schema, t, attr) {
            SpecLookup::Declared(ty, required) => if required || caps.contains(
                (shape(child), attr),
            ) {
                answer(e, kind, ty, a.errors)
            } else {
                answer(
                    e,
                    kind,
                    ty,
                    a.errors.push(
                        SpecTypeError::on(
                            e,
                            SpecErrorKind::UnsafeOptionalAttributeAccess {
                                attribute_access: access_from(env, a.typed, seq![attr]),
                            },
                        ),
                    ),
                )
            },
            _ => answer(
                e,
                kind,
                SpecType::Never,
                a.errors.push(
                    missing_attribute(schema, env, e, a.typed, t, attr, may_have_more(schema, t)),
                ),
            ),
        }
    }
}

/// The answer for `child has attr` at `e`, where `a` is the answer for
/// `child`: `true` for a required attribute, `false` for one that the type
/// rules out, and else a boolean; where the attribute is optional, the test
/// establishes its presence.
pub open spec fn has_attr_answer(
    schema: SpecSchema,
    e: SpecExpr,
    child: SpecExpr,
    attr: Seq<char>,
    a: SpecAnswer,
) -> SpecAnswer {
    let kind = SpecExprKind::HasAttr { expr: Box::new(a.typed), attr };
    let t = a.ty();
    if !has_attributes(t) {
        answer(
            e,
            kind,
            SpecType::Boolean,
            a.errors.push(unexpected(child, attribute_bearers(), t, None)),
        )
    } else {
        match attribute_lookup(schema, t, attr) {
            SpecLookup::Declared(_, true) => answer(e, kind, SpecType::True, a.errors),
            SpecLookup::Declared(_, false) => SpecAnswer {
                typed: annotated(e, kind, SpecType::Boolean),
                caps: Set::<(SpecExpr, Seq<char>)>::empty().insert((shape(child), attr)),
                errors: a.errors,
            },
            SpecLookup::Absent => answer(e, kind, SpecType::False, a.errors),
            SpecLookup::Unknown => answer(e, kind, SpecType::Boolean, a.errors),
        }
    }
}

/// What a record with the attributes `attrs` says of the attribute `name`.
pub fn look_in_record(attrs: &Vec<(String, AttributeType)>, open: bool, name: &String) -> (out:
    Lookup)
    ensures
        out@ == lookup_record(attributes_view(attrs@), open, name@),
{
    match find_attribute(attrs, name) {
        Some(t) => Lookup::Declared(t.clone()),
        None => if open {
            Lookup::Unknown
        } else {
            Lookup::Absent
        },
    }
}

/// What the entity type named `name` says of the attribute `attr`.
pub fn look_in_entity(schema: &ValidatorSchema, name: &String, attr: &String) -> (out: Lookup)
    ensures
        out@ == lookup_entity(schema@, name@, attr@),
{
    match schema.get_entity_type(name) {
        Some(d) => look_in_record(&d.attributes, d.open_attributes, attr),
        None => Lookup::Unknown,
    }
}

/// Whether both lookups found the same.
pub fn same_lookup(a: &Lookup, b: &Lookup) -> (same: bool)
    ensures
        same == (a@ == b@),
{
    match (a, b) {
        (Lookup::Declared(x), Lookup::Declared(y)) => x.is_required == y.is_required
            && x.attr_type.same_as(&y.attr_type),
        (Lookup::Absent, Lookup::Absent) => true,
        (Lookup::Unknown, Lookup::Unknown) => true,
        _ => false,
    }
}

/// An optional lookup as a mathematical value.
pub open spec fn seen_view(seen: Option<Lookup>) -> Option<SpecLookup> {
    match seen {
        Some(l) => Some(l@),
        None => None,
    }
}

/// What several types say together, after `seen` from the earlier ones and
/// `next` from one more.
pub fn combine(seen: Option<Lookup>, next: Lookup) -> (out: Option<Lookup>)
    ensures
        seen_view(out) == agree(seen_view(seen), next@),
{
    match seen {
        None => Some(next),
        Some(p) => if same_lookup(&p, &next) {
            Some(p)
        } else {
            Some(Lookup::Unknown)
        },
    }
}

/// Whether the action entity type `t` is one of `names`.
pub fn action_of(t: &EntityType, names: &EntityLUB) -> (out: bool)
    ensures
        out == is_action_of(t@, names@),
{
    match t {
        EntityType::Specified(name) => names.contains(name),
        EntityType::Unspecified => false,
    }
}

/// What the type `t` says of the attribute `attr`.
pub fn look_up(schema: &ValidatorSchema, t: &Type, attr: &String) -> (out: Lookup)
    ensures
        out@ == attribute_lookup(schema@, t@, attr@),
{
    match t {
        Type::Record { attrs, open } => {
            proof {
                record_view(*t);
            }
            look_in_record(attrs, *open, attr)
        },
        Type::Entity(names) => {
            let mut seen: Option<Lookup> = None;
            let mut i: usize = 0;
            while i < names.names.len()
                invariant
                    i <= names.names.len(),
                    seen_view(seen) == lookup_entities(schema@, names@, attr@, i as nat),
                decreases names.names.len() - i,
            {
                let next = look_in_entity(schema, &names.names[i], attr);
                assert(names@[i as int] == names.names@[i as int]@);
                seen = combine(seen, next);
                i += 1;
            }
            assert(names@.len() == names.names@.len());
            match seen {
                Some(l) => l,
                None => Lookup::Unknown,
            }
        },
        Type::ActionEntity(names) => {
            let mut seen: Option<Lookup> = None;
            let mut i: usize = 0;
            while i < schema.action_ids.len()
                invariant
                    i <= schema.action_ids.len(),
                    seen_view(seen) == lookup_actions(schema@, names@, attr@, i as nat),
                decreases schema.action_ids.len() - i,
            {
                let a = &schema.action_ids[i];
                assert(schema@.actions[i as int] == a@);
                if action_of(&a.name.ty, names) {
                    let next = look_in_record(&a.attributes, false, attr);
                    seen = combine(seen, next);
                }
                i += 1;
            }
            match seen {
                Some(l) => l,
                None => Lookup::Unknown,
            }
        },
        _ => Lookup::Unknown,
    }
}

impl Type {
    /// The type of the attribute `attr` of values of this type, where the
    /// type declares it.
    pub fn attribute_type(&self, schema: &ValidatorSchema, attr: &String) -> (out: Option<
        AttributeType,
    >)
        ensures
            out matches Some(a) ==> attribute_type(schema@, self@, attr@) == Some(a@),
            out is None ==> attribute_type(schema@, self@, attr@) is None,
    {
        match look_up(schema, self, attr) {
            Lookup::Declared(a) => Some(a),
            _ => None,
        }
    }
}

/// Whether values of type `t` may have attributes that `t` does not list.
pub fn may_have_more_attributes(schema: &ValidatorSchema, t: &Type) -> (out: bool)
    ensures
        out == may_have_more(schema@, t@),
{
    match t {
        Type::Record { open, .. } => {
            proof {
                record_view(*t);
            }
            *open
        },
        Type::AnyEntity => true,
        Type::Entity(names) => {
            let mut found = false;
            let mut i: usize = 0;
            while i < names.names.len()
                invariant
                    i <= names.names.len(),
                    found == some_open(schema@, names@, i as nat),
                decreases names.names.len() - i,
            {
                assert(names@[i as int] == names.names@[i as int]@);
                let open = match schema.get_entity_type(&names.names[i]) {
                    Some(d) => d.open_attributes,
                    None => false,
                };
                found = found || open;
                i += 1;
            }
            assert(names@.len() == names.names@.len());
            found
        },
        _ => false,
    }
}

/// Whether values of type `t` can have attributes.
pub fn can_have_attributes(t: &Type) -> (out: bool)
    ensures
        out == has_attributes(t@),
{
    match t {
        Type::Record { .. } => true,
        Type::Entity(_) => true,
        Type::ActionEntity(_) => true,
        Type::AnyEntity => true,
        Type::Never => true,
        _ => false,
    }
}

/// Adds the names of the attributes `attrs` to `out`.
pub fn add_attr_names(attrs: &Vec<(String, AttributeType)>, out: &mut Vec<String>)
    ensures
        texts(final(out)) == texts(old(out)) + attr_names(attributes_view(attrs@)),
{
    let ghost before = texts(out);
    let ghost av = attr_names(attributes_view(attrs@));
    let mut i: usize = 0;
    assert(before + av.take(0) =~= before);
    while i < attrs.len()
        invariant
            i <= attrs.len(),
            av == attr_names(attributes_view(attrs@)),
            texts(out) == before + av.take(i as int),
        decreases attrs.len() - i,
    {
        let ghost mid = texts(out);
        out.push(attrs[i].0.clone());
        proof {
            assert(texts(out) =~= mid.push(av[i as int]));
            assert(av.take(i + 1) =~= av.take(i as int).push(av[i as int]));
            assert(mid.push(av[i as int]) =~= before + av.take(i + 1));
        }
        i += 1;
    }
    assert(av.take(attrs.len() as int) =~= av);
}

/// The names of the attributes that the type `t` declares.
pub fn declared_attribute_names(schema: &ValidatorSchema, t: &Type) -> (out: Vec<String>)
    ensures
        texts(&out) == attribute_names(schema@, t@),
{
    let mut out: Vec<String> = Vec::new();
    assert(texts(&out) =~= Seq::<Seq<char>>::empty());
    match t {
        Type::Record { attrs, .. } => {
            proof {
                record_view(*t);
            }
            add_attr_names(attrs, &mut out);
            assert(Seq::<Seq<char>>::empty() + attr_names(attributes_view(attrs@)) =~= attr_names(
                attributes_view(attrs@),
            ));
        },
        Type::Entity(names) => {
            let mut i: usize = 0;
            while i < names.names.len()
                invariant
                    i <= names.names.len(),
                    texts(&out) == entities_attr_names(schema@, names@, i as nat),
                decreases names.names.len() - i,
            {
                assert(names@[i as int] == names.names@[i as int]@);
                let ghost before = texts(&out);
                match schema.get_entity_type(&names.names[i]) {
                    Some(d) => {
                        add_attr_names(&d.attributes, &mut out);
                    },
                    None => {
                        assert(before + Seq::<Seq<char>>::empty() =~= before);
                    },
                }
                i += 1;
            }
            assert(names@.len() == names.names@.len());
        },
        Type::ActionEntity(names) => {
            let mut i: usize = 0;
            while i < schema.action_ids.len()
                invariant
                    i <= schema.action_ids.len(),
                    texts(&out) == actions_attr_names(schema@, names@, i as nat),
                decreases schema.action_ids.len() - i,
            {
                let a = &schema.action_ids[i];
                assert(schema@.actions[i as int] == a@);
                if action_of(&a.name.ty, names) {
                    add_attr_names(&a.attributes, &mut out);
                }
                i += 1;
            }
        },
        _ => {},
    }
    out
}

/// The types that have attributes, as errors name them.
pub fn attribute_bearer_types() -> (out: Vec<Type>)
    ensures
        types_view(out@) == attribute_bearers(),
{
    let mut out: Vec<Type> = Vec::new();
    out.push(Type::AnyEntity);
    let record = Type::record_with_attributes(Vec::new(), OpenTag::OpenAttributes);
    assert(record@ == (SpecType::Record { attrs: Seq::<SpecAttribute>::empty(), open: true })) by {
        assert(attributes_view(Seq::empty()) =~= Seq::<SpecAttribute>::empty());
    }
    out.push(record);
    assert(types_view(out@) =~= attribute_bearers());
    out
}

/// The error for an access to an attribute that is not known to exist.
pub fn missing_attribute_error(
    schema: &ValidatorSchema,
    env: &RequestEnv,
    e: &Expr,
    typed: &Expr,
    t: &Type,
    attr: &String,
    may_exist: bool,
) -> (out: TypeError)
    ensures
        out@ == missing_attribute(schema@, env@, e@, typed@, t@, attr@, may_exist),
{
    let access = AttributeAccess::from_expr(env, typed, attr.clone());
    let suggested = fuzzy_search(attr, &declared_attribute_names(schema, t));
    TypeError::unsafe_attribute_access(e.clone(), access, suggested, may_exist)
}

/// The answer for `child.attr` at `e`, where `a` is the answer for `child`
/// and `caps` holds what is known where `e` stands.
pub fn check_get_attr(
    schema: &ValidatorSchema,
    env: &RequestEnv,
    caps: &CapabilitySet,
    e: &Expr,
    child: &Expr,
    attr: &String,
    a: Answer,
) -> (out: Answer)
    ensures
        out@ == get_attr_answer(schema@, env@, caps@, e@, child@, attr@, a@),
{
    let t = a.ty();
    let Answer { typed, caps: _, errors } = a;
    let mut errors = errors;
    if !can_have_attributes(&t) {
        let ghost before = errors_view(errors@);
        add_unexpected(child, attribute_bearer_types(), &t, None, &mut errors);
        assert(before + seq![unexpected(child@, attribute_bearers(), t@, None)] =~= before.push(
            unexpected(child@, attribute_bearers(), t@, None),
        ));
        return Answer::plain(
            e,
            ExprKind::GetAttr { expr: Box::new(typed), attr: attr.clone() },
            Type::Never,
            errors,
        );
    }
    if let Type::Never = t {
        return Answer::plain(
            e,
            ExprKind::GetAttr { expr: Box::new(typed), attr: attr.clone() },
            Type::Never,
            errors,
        );
    }
    let ty = match look_up(schema, &t, attr) {
        Lookup::Declared(found) => {
            if !found.is_required && !caps.contains(child, attr) {
                let access = AttributeAccess::from_expr(env, &typed, attr.clone());
                add_error(
                    &mut errors,
                    TypeError::unsafe_optional_attribute_access(e.clone(), access),
                );
            }
            found.attr_type
        },
        _ => {
            let may_exist = may_have_more_attributes(schema, &t);
            add_error(
                &mut errors,
                missing_attribute_error(schema, env, e, &typed, &t, attr, may_exist),
            );
            Type::Never
        },
    };
    Answer::plain(e, ExprKind::GetAttr { expr: Box::new(typed), attr: attr.clone() }, ty, errors)
}

/// The answer for `child has attr` at `e`, where `a` is the answer for
/// `child`.
pub fn check_has_attr(
    schema: &ValidatorSchema,
    e: &Expr,
    child: &Expr,
    attr: &String,
    a: Answer,
) -> (out: Answer)
    ensures
        out@ == has_attr_answer(schema@, e@, child@, attr@, a@),
{
    let t = a.ty();
    let Answer { typed, caps: _, errors } = a;
    let mut errors = errors;
    let kind = ExprKind::HasAttr { expr: Box::new(typed), attr: attr.clone() };
    if !can_have_attributes(&t) {
        let ghost before = errors_view(errors@);
        add_unexpected(child, attribute_bearer_types(), &t, None, &mut errors);
        assert(before + seq![unexpected(child@, attribute_bearers(), t@, None)] =~= before.push(
            unexpected(child@, attribute_bearers(), t@, None),
        ));
        return Answer::plain(e, kind, Type::Boolean, errors);
    }
    match look_up(schema, &t, attr) {
        Lookup::Declared(found) => {
            if found.is_required {
                Answer::plain(e, kind, Type::True, errors)
            } else {
                Answer::new(
                    e,
                    kind,
                    Type::Boolean,
                    CapabilitySet::singleton(child, attr.clone()),
                    errors,
                )
            }
        },
        Lookup::Absent => Answer::plain(e, kind, Type::False, errors),
        Lookup::Unknown => Answer::plain(e, kind, Type::Boolean, errors),
    }
}

} // verus!
