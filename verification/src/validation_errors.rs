//! The structure of the type errors that the typechecker reports: the
//! expression or source range that an error is about, its kind with the
//! details of that kind, and the message and help text that each kind gives.

use vstd::prelude::*;
use crate::expr::{
    clone_loc, loc_view, same_loc, CallStyle, EntityUID, Expr, ExprKind, Loc, SpecEntityUID,
    SpecExpr, SpecExprKind, SpecLoc, Var,
};
use crate::request_env::{RequestEnv, SpecRequestEnv};
use crate::text::{
    backwards, clone_opt, clone_strings, conjoined, decimal, decimal_text, join,
    join_with_conjunction, joined, opt_text, reversed, same_opt, same_strings, surround, texts,
};
use crate::type_order::{is_type_set_of, sorted_types, type_set_of};
use crate::types::{
    clone_types, render_all, rendered, rendered_all, same_types,
    types_view, EntityLUB, SpecType, Type,
};

verus! {

/// Why two types have no least upper bound.
#[derive(Debug, Clone, Copy, Hash, PartialEq, Eq, Structural)]
pub enum LubHelp {
    /// Corresponding record attributes differ in optionality.
    AttributeQualifier,
    /// The records do not have exactly the same attributes.
    RecordWidth,
    /// Different entity types are never compatible.
    EntityType,
    /// Entity and record types are never compatible.
    EntityRecord,
    /// No more specific reason: the types must be exactly equal.
    NoHelp,
}

impl LubHelp {
    /// The hint in words.
    pub open spec fn spec_to_string(self) -> Seq<char> {
        match self {
            LubHelp::AttributeQualifier =>
                "Corresponding attributes of compatible record types must have the same optionality, either both being required or both being optional"@,
            LubHelp::RecordWidth => "Compatible record types must have exactly the same attributes"@,
            LubHelp::EntityType =>
                "Different entity types are never compatible even when their attributes would be compatible"@,
            LubHelp::EntityRecord =>
                "Entity and record types are never compatible even when their attributes would be compatible"@,
            LubHelp::NoHelp => "Types must be exactly equal to be compatible"@,
        }
    }

    /// The hint in words.
    pub fn to_string(&self) -> (out: String)
        ensures
            out@ == self.spec_to_string(),
    {
        match self {
            LubHelp::AttributeQualifier => String::from_str(
                "Corresponding attributes of compatible record types must have the same optionality, either both being required or both being optional",
            ),
            LubHelp::RecordWidth => String::from_str(
                "Compatible record types must have exactly the same attributes",
            ),
            LubHelp::EntityType => String::from_str(
                "Different entity types are never compatible even when their attributes would be compatible",
            ),
            LubHelp::EntityRecord => String::from_str(
                "Entity and record types are never compatible even when their attributes would be compatible",
            ),
            LubHelp::NoHelp => String::from_str("Types must be exactly equal to be compatible"),
        }
    }
}

/// The construct whose operands needed a least upper bound.
#[derive(Debug, Clone, Copy, Hash, PartialEq, Eq, Structural)]
pub enum LubContext {
    /// The elements of a set literal.
    SetElements,
    /// The two branches of a conditional.
    Conditional,
    /// The two operands of `==`.
    Equality,
    /// The set elements and the other operand of `contains`.
    Contains,
    /// The elements of both operands of `containsAll` or `containsAny`.
    ContainsAnyAll,
}

impl LubContext {
    /// The construct in words.
    pub open spec fn spec_to_string(self) -> Seq<char> {
        match self {
            LubContext::SetElements => "elements of a set"@,
            LubContext::Conditional => "both branches of a conditional"@,
            LubContext::Equality => "both operands to a `==` expression"@,
            LubContext::Contains =>
                "elements of the first operand and the second operand to a `contains` expression"@,
            LubContext::ContainsAnyAll =>
                "elements of both set operands to a `containsAll` or `containsAny` expression"@,
        }
    }

    /// The construct in words.
    pub fn to_string(&self) -> (out: String)
        ensures
            out@ == self.spec_to_string(),
    {
        match self {
            LubContext::SetElements => String::from_str("elements of a set"),
            LubContext::Conditional => String::from_str("both branches of a conditional"),
            LubContext::Equality => String::from_str("both operands to a `==` expression"),
            LubContext::Contains => String::from_str(
                "elements of the first operand and the second operand to a `contains` expression",
            ),
            LubContext::ContainsAnyAll => String::from_str(
                "elements of both set operands to a `containsAll` or `containsAny` expression",
            ),
        }
    }
}

/// What to try where a value of an unexpected type stands.
#[derive(Debug, Clone, Copy, Hash, PartialEq, Eq, Structural)]
pub enum UnexpectedTypeHelp {
    TryUsingLike,
    TryUsingContains,
    TryUsingSingleContains,
    TryUsingHas,
    TryUsingIs,
    TryUsingIn,
    TypeTestNotSupported,
    ConcatenationNotSupported,
    SetOperationsNotSupported,
}

impl UnexpectedTypeHelp {
    /// The advice in words.
    pub open spec fn spec_to_string(self) -> Seq<char> {
        match self {
            UnexpectedTypeHelp::TryUsingLike =>
                "try using `like` to examine the contents of a string"@,
            UnexpectedTypeHelp::TryUsingContains =>
                "try using `contains`, `containsAny`, or `containsAll` to examine the contents of a set"@,
            UnexpectedTypeHelp::TryUsingSingleContains =>
                "try using `contains` to test if a single element is in a set"@,
            UnexpectedTypeHelp::TryUsingHas => "try using `has` to test for an attribute"@,
            UnexpectedTypeHelp::TryUsingIs => "try using `is` to test for an entity type"@,
            UnexpectedTypeHelp::TryUsingIn => "try using `in` for entity hierarchy membership"@,
            UnexpectedTypeHelp::TypeTestNotSupported =>
                "Cedar only supports run time type tests for entities"@,
            UnexpectedTypeHelp::ConcatenationNotSupported =>
                "Cedar does not support string concatenation"@,
            UnexpectedTypeHelp::SetOperationsNotSupported =>
                "Cedar does not support computing the union, intersection, or difference of sets"@,
        }
    }

    /// The advice in words.
    pub fn to_string(&self) -> (out: String)
        ensures
            out@ == self.spec_to_string(),
    {
        match self {
            UnexpectedTypeHelp::TryUsingLike => String::from_str(
                "try using `like` to examine the contents of a string",
            ),
            UnexpectedTypeHelp::TryUsingContains => String::from_str(
                "try using `contains`, `containsAny`, or `containsAll` to examine the contents of a set",
            ),
            UnexpectedTypeHelp::TryUsingSingleContains => String::from_str(
                "try using `contains` to test if a single element is in a set",
            ),
            UnexpectedTypeHelp::TryUsingHas => String::from_str(
                "try using `has` to test for an attribute",
            ),
            UnexpectedTypeHelp::TryUsingIs => String::from_str(
                "try using `is` to test for an entity type",
            ),
            UnexpectedTypeHelp::TryUsingIn => String::from_str(
                "try using `in` for entity hierarchy membership",
            ),
            UnexpectedTypeHelp::TypeTestNotSupported => String::from_str(
                "Cedar only supports run time type tests for entities",
            ),
            UnexpectedTypeHelp::ConcatenationNotSupported => String::from_str(
                "Cedar does not support string concatenation",
            ),
            UnexpectedTypeHelp::SetOperationsNotSupported => String::from_str(
                "Cedar does not support computing the union, intersection, or difference of sets",
            ),
        }
    }
}

/// What an attribute access is an access to: the chain of attribute names,
/// innermost last, and the entity type or the context that the chain starts
/// from, where it starts from one.
#[derive(Debug, PartialEq, Eq, Hash)]
pub enum AttributeAccess {
    /// Attributes reached from an entity of one of these types.
    EntityLUB(EntityLUB, Vec<String>),
    /// Attributes reached from the context of requests for this action.
    Context(EntityUID, Vec<String>),
    /// Attributes reached from anything else.
    Other(Vec<String>),
}

/// An attribute access as a mathematical value.
pub enum SpecAttributeAccess {
    EntityLUB(Seq<Seq<char>>, Seq<Seq<char>>),
    Context(SpecEntityUID, Seq<Seq<char>>),
    Other(Seq<Seq<char>>),
}

impl View for AttributeAccess {
    type V = SpecAttributeAccess;

    open spec fn view(&self) -> SpecAttributeAccess {
        match self {
            AttributeAccess::EntityLUB(lub, attrs) => SpecAttributeAccess::EntityLUB(
                lub@,
                texts(attrs),
            ),
            AttributeAccess::Context(action, attrs) => SpecAttributeAccess::Context(
                action@,
                texts(attrs),
            ),
            AttributeAccess::Other(attrs) => SpecAttributeAccess::Other(texts(attrs)),
        }
    }
}

/// The access that the expression `e.a1.a2...` makes, where `attrs` holds the
/// names `a1, a2, ...` from the outermost inwards: walk down the chain of
/// attribute selections until an entity-typed expression or the context
/// variable is reached.
pub open spec fn access_from(env: SpecRequestEnv, e: SpecExpr, attrs: Seq<Seq<char>>) -> SpecAttributeAccess
    decreases e,
{
    if let Some(SpecType::Entity(lub)) = e.data {
        SpecAttributeAccess::EntityLUB(lub, attrs)
    } else {
        match e.kind {
            SpecExprKind::Var(Var::Context) => match env.action_entity_uid() {
                Some(action) => SpecAttributeAccess::Context(action, attrs),
                None => SpecAttributeAccess::Other(attrs),
            },
            SpecExprKind::GetAttr { expr, attr } => access_from(env, *expr, attrs.push(attr)),
            _ => SpecAttributeAccess::Other(attrs),
        }
    }
}

impl SpecAttributeAccess {
    /// The chain of attribute names, innermost last.
    pub open spec fn attrs(self) -> Seq<Seq<char>> {
        match self {
            SpecAttributeAccess::EntityLUB(_, attrs) => attrs,
            SpecAttributeAccess::Context(_, attrs) => attrs,
            SpecAttributeAccess::Other(attrs) => attrs,
        }
    }

    /// The expression that a `has` guard would start from.
    pub open spec fn base(self) -> Seq<char> {
        match self {
            SpecAttributeAccess::Context(_, _) => "context"@,
            _ => "e"@,
        }
    }

    /// The `has` test that would make the access safe: the base and the
    /// attributes that lead to the last one, joined by dots, then ` has ` and
    /// the attribute accessed.
    pub open spec fn suggested_has_guard(self) -> Seq<char> {
        let attrs = self.attrs();
        if attrs.len() == 0 {
            self.base() + " has "@ + "f"@
        } else {
            joined(seq![self.base()] + backwards(attrs.drop_first()), "."@) + " has "@ + attrs[0]
        }
    }

    /// The entity types of an access as a message names them.
    pub open spec fn entity_types_text(lub: Seq<Seq<char>>) -> Seq<char> {
        if lub.len() == 1 {
            " "@ + lub[0]
        } else {
            "s "@ + joined(lub, ", "@)
        }
    }

    /// How the access reads in messages.
    pub open spec fn text(self) -> Seq<char> {
        let path = "`"@ + joined(backwards(self.attrs()), "."@) + "`"@;
        match self {
            SpecAttributeAccess::EntityLUB(lub, _) => path + " for entity type"@
                + Self::entity_types_text(lub),
            SpecAttributeAccess::Context(action, _) => path + " in context for "@ + action.text(),
            SpecAttributeAccess::Other(_) => path,
        }
    }
}

impl Clone for AttributeAccess {
    fn clone(&self) -> (out: Self)
        ensures
            out@ == self@,
    {
        match self {
            AttributeAccess::EntityLUB(lub, attrs) => AttributeAccess::EntityLUB(
                lub.clone(),
                clone_strings(attrs),
            ),
            AttributeAccess::Context(action, attrs) => AttributeAccess::Context(
                action.clone(),
                clone_strings(attrs),
            ),
            AttributeAccess::Other(attrs) => AttributeAccess::Other(clone_strings(attrs)),
        }
    }
}

impl AttributeAccess {
    /// The access made by selecting `attr` from `expr`.
    pub fn from_expr(req_env: &RequestEnv, expr: &Expr, attr: String) -> (out: AttributeAccess)
        ensures
            out@ == access_from(req_env@, expr@, seq![attr@]),
    {
        let mut attrs: Vec<String> = Vec::new();
        attrs.push(attr);
        assert(texts(&attrs) =~= seq![attr@]);
        Self::from_chain(req_env, expr, attrs)
    }

    /// The access made by selecting the attributes `attrs` in turn from `expr`.
    pub fn from_chain(req_env: &RequestEnv, expr: &Expr, attrs: Vec<String>) -> (out:
        AttributeAccess)
        ensures
            out@ == access_from(req_env@, expr@, texts(&attrs)),
        decreases expr,
    {
        if let Some(Type::Entity(lub)) = &expr.data {
            return AttributeAccess::EntityLUB(lub.clone(), attrs);
        }
        match &expr.expr_kind {
            ExprKind::Var(Var::Context) => match req_env.action_entity_uid() {
                Some(action) => AttributeAccess::Context(action.clone(), attrs),
                None => AttributeAccess::Other(attrs),
            },
            ExprKind::GetAttr { expr: sub_expr, attr } => {
                let ghost before = texts(&attrs);
                let mut attrs = attrs;
                attrs.push(attr.clone());
                assert(texts(&attrs) =~= before.push(attr@));
                Self::from_chain(req_env, sub_expr, attrs)
            },
            _ => AttributeAccess::Other(attrs),
        }
    }

    /// The chain of attribute names, innermost last.
    pub fn attrs(&self) -> (out: &Vec<String>)
        ensures
            texts(out) == self@.attrs(),
    {
        match self {
            AttributeAccess::EntityLUB(_, attrs) => attrs,
            AttributeAccess::Context(_, attrs) => attrs,
            AttributeAccess::Other(attrs) => attrs,
        }
    }

    /// A `has` test to suggest as a fix for an unsafe access to an optional
    /// attribute.
    pub fn suggested_has_guard(&self) -> (out: String)
        ensures
            out@ == self@.suggested_has_guard(),
    {
        let base_expr = match self {
            AttributeAccess::Context(_, _) => String::from_str("context"),
            _ => String::from_str("e"),
        };
        let attrs = self.attrs();
        if attrs.len() == 0 {
            return surround(base_expr.as_str(), " has ", "f");
        }
        let backward = reversed(attrs);
        assert(backward.len() == attrs.len()) by {
            assert(texts(&backward).len() == backward.len());
            assert(backwards(texts(attrs)).len() == attrs.len());
        }
        let mut path: Vec<String> = Vec::new();
        path.push(base_expr);
        let mut i: usize = 0;
        let ghost safe = backwards(texts(attrs).drop_first());
        assert(texts(&path) =~= seq![self@.base()] + safe.take(0));
        while i + 1 < backward.len()
            invariant
                i + 1 <= backward.len(),
                backward.len() == attrs.len(),
                texts(&backward) == backwards(texts(attrs)),
                safe == backwards(texts(attrs).drop_first()),
                texts(&path) == seq![self@.base()] + safe.take(i as int),
            decreases backward.len() - i,
        {
            let ghost before = texts(&path);
            path.push(backward[i].clone());
            proof {
                assert(texts(&backward)[i as int] == safe[i as int]);
                assert(texts(&path) =~= before.push(safe[i as int]));
                assert(safe.take(i + 1) =~= safe.take(i as int).push(safe[i as int]));
                assert(before.push(safe[i as int]) =~= seq![self@.base()] + safe.take(i + 1));
            }
            i += 1;
        }
        assert(safe.take(i as int) =~= safe);
        let full_expr = join(&path, ".");
        surround(full_expr.as_str(), " has ", attrs[0].as_str())
    }

    /// How the access reads in messages.
    pub fn to_string(&self) -> (out: String)
        ensures
            out@ == self@.text(),
    {
        let attrs_str = join(&reversed(self.attrs()), ".");
        let mut out = surround("`", attrs_str.as_str(), "`");
        match self {
            AttributeAccess::EntityLUB(lub, _) => {
                out.append(" for entity type");
                match lub.get_single_entity() {
                    Some(single) => {
                        out.append(" ");
                        out.append(single.as_str());
                        assert(out@ =~= self@.text());
                    },
                    None => {
                        out.append("s ");
                        out.append(join(&lub.names, ", ").as_str());
                        assert(out@ =~= self@.text());
                    },
                }
            },
            AttributeAccess::Context(action, _) => {
                out.append(" in context for ");
                out.append(action.to_string().as_str());
            },
            AttributeAccess::Other(_) => {},
        }
        out
    }
}

/// The details of a type error, by kind, as mathematical values.
pub enum SpecErrorKind {
    UnrecognizedEntityType { actual_entity_type: Seq<char>, suggested_entity_type: Option<Seq<char>> },
    UnrecognizedActionId { actual_action_id: Seq<char>, suggested_action_id: Option<Seq<char>> },
    InvalidActionApplication { would_in_fix_principal: bool, would_in_fix_resource: bool },
    UnspecifiedEntity { entity_id: Seq<char> },
    UnexpectedType { expected: Seq<SpecType>, actual: SpecType, help: Option<UnexpectedTypeHelp> },
    IncompatibleTypes { types: Seq<SpecType>, hint: LubHelp, context: LubContext },
    UnsafeAttributeAccess {
        attribute_access: SpecAttributeAccess,
        suggestion: Option<Seq<char>>,
        may_exist: bool,
    },
    UnsafeOptionalAttributeAccess { attribute_access: SpecAttributeAccess },
    ImpossiblePolicy,
    UndefinedFunction { name: Seq<char> },
    MultiplyDefinedFunction { name: Seq<char> },
    WrongNumberArguments { expected: nat, actual: nat },
    WrongCallStyle { expected: CallStyle, actual: CallStyle },
    FunctionArgumentValidation { msg: Seq<char> },
    EmptySetForbidden,
    NonLitExtConstructor,
    HierarchyNotRespected { in_lhs: Option<Seq<char>>, in_rhs: Option<Seq<char>> },
}

/// The question that goes with a suggested name.
pub open spec fn did_you_mean(name: Seq<char>) -> Seq<char> {
    "did you mean `"@ + name + "`?"@
}

impl SpecErrorKind {
    /// The primary message of an error of this kind. Types are named in
    /// ascending order, each once.
    pub open spec fn message(self) -> Seq<char> {
        match self {
            SpecErrorKind::UnrecognizedEntityType { actual_entity_type, .. } =>
                "unrecognized entity type `"@ + actual_entity_type + "`"@,
            SpecErrorKind::UnrecognizedActionId { actual_action_id, .. } =>
                "unrecognized action `"@ + actual_action_id + "`"@,
            SpecErrorKind::InvalidActionApplication { .. } =>
                "unable to find an applicable action given the policy scope constraints"@,
            SpecErrorKind::UnspecifiedEntity { entity_id } => "unspecified entity with id `"@
                + entity_id + "`"@,
            SpecErrorKind::UnexpectedType { expected, actual, .. } =>
                "unexpected type: expected "@ + joined(
                    rendered_all(sorted_types(expected)),
                    ", or "@,
                )
                + " but saw "@ + rendered(actual),
            SpecErrorKind::IncompatibleTypes { types, .. } => "the types "@ + conjoined(
                rendered_all(sorted_types(types)),
                "and"@,
            ) + " are not compatible"@,
            SpecErrorKind::UnsafeAttributeAccess { attribute_access, .. } => "attribute "@
                + attribute_access.text() + " not found"@,
            SpecErrorKind::UnsafeOptionalAttributeAccess { attribute_access } =>
                "unable to guarantee safety of access to optional attribute "@
                + attribute_access.text(),
            SpecErrorKind::ImpossiblePolicy =>
                "policy is impossible: the policy expression evaluates to false for all valid requests"@,
            SpecErrorKind::UndefinedFunction { name } => "undefined extension function: "@ + name,
            SpecErrorKind::MultiplyDefinedFunction { name } =>
                "extension function defined multiple times: "@ + name,
            SpecErrorKind::WrongNumberArguments { expected, actual } =>
                "wrong number of arguments in extension function application. Expected "@
                + decimal(expected) + ", got "@ + decimal(actual),
            SpecErrorKind::WrongCallStyle { expected, actual } =>
                "wrong call style in extension function application. Expected "@
                + expected.spec_to_string() + ", got "@ + actual.spec_to_string(),
            SpecErrorKind::FunctionArgumentValidation { msg } =>
                "error during extension function argument validation: "@ + msg,
            SpecErrorKind::EmptySetForbidden => "empty set literals are forbidden in policies"@,
            SpecErrorKind::NonLitExtConstructor =>
                "extension constructors may not be called with non-literal expressions"@,
            SpecErrorKind::HierarchyNotRespected { .. } =>
                "operands to `in` do not respect the entity hierarchy"@,
        }
    }

    /// The help text of an error of this kind, where it has one.
    pub open spec fn help(self) -> Option<Seq<char>> {
        match self {
            SpecErrorKind::UnrecognizedEntityType { suggested_entity_type, .. } => match suggested_entity_type {
                Some(s) => Some(did_you_mean(s)),
                None => None,
            },
            SpecErrorKind::UnrecognizedActionId { suggested_action_id, .. } => match suggested_action_id {
                Some(s) => Some(did_you_mean(s)),
                None => None,
            },
            SpecErrorKind::InvalidActionApplication {
                would_in_fix_principal,
                would_in_fix_resource,
            } => match (would_in_fix_principal, would_in_fix_resource) {
                (true, false) => Some("try replacing `==` with `in` in the principal clause"@),
                (false, true) => Some("try replacing `==` with `in` in the resource clause"@),
                (true, true) => Some(
                    "try replacing `==` with `in` in the principal clause and the resource clause"@,
                ),
                (false, false) => None,
            },
            SpecErrorKind::UnspecifiedEntity { .. } => Some(
                "unspecified entities cannot be used in policies"@,
            ),
            SpecErrorKind::UnexpectedType { help, .. } => match help {
                Some(h) => Some(h.spec_to_string()),
                None => None,
            },
            SpecErrorKind::IncompatibleTypes { hint, context, .. } => Some(
                context.spec_to_string() + " must have compatible types. "@ + hint.spec_to_string(),
            ),
            SpecErrorKind::UnsafeAttributeAccess { suggestion, may_exist, .. } => match (
                suggestion,
                may_exist,
            ) {
                (Some(s), false) => Some(did_you_mean(s)),
                (None, true) => Some(
                    "there may be additional attributes that the validator is not able to reason about"@,
                ),
                (Some(s), true) => Some(
                    did_you_mean(s)
                        + " (there may also be additional attributes that the validator is not able to reason about)"@,
                ),
                (None, false) => None,
            },
            SpecErrorKind::UnsafeOptionalAttributeAccess { attribute_access } => Some(
                "try testing for the attribute with `"@ + attribute_access.suggested_has_guard()
                    + " && ..`"@,
            ),
            SpecErrorKind::NonLitExtConstructor => Some(
                "consider applying extension constructors to literal values when constructing entity or context data"@,
            ),
            SpecErrorKind::HierarchyNotRespected { in_lhs, in_rhs } => match (in_lhs, in_rhs) {
                (Some(l), Some(r)) => Some("`"@ + l + "` cannot be a descendant of `"@ + r + "`"@),
                _ => None,
            },
            _ => None,
        }
    }
}

/// A policy names an entity type that the schema does not declare.
#[derive(Debug, PartialEq, Eq, Hash)]
pub struct UnrecognizedEntityType {
    /// The entity type seen in the policy.
    pub actual_entity_type: String,
    /// An entity type of the schema that may have been meant.
    pub suggested_entity_type: Option<String>,
}

impl View for UnrecognizedEntityType {
    type V = SpecErrorKind;

    open spec fn view(&self) -> SpecErrorKind {
        SpecErrorKind::UnrecognizedEntityType {
            actual_entity_type: self.actual_entity_type@,
            suggested_entity_type: opt_text(self.suggested_entity_type),
        }
    }
}

/// The question that goes with a suggested name, if there is one.
pub fn suggest(name: &Option<String>) -> (out: Option<String>)
    ensures
        opt_text(out) == match opt_text(*name) {
            Some(s) => Some(did_you_mean(s)),
            None => None,
        },
{
    match name {
        Some(s) => Some(surround("did you mean `", s.as_str(), "`?")),
        None => None,
    }
}

impl UnrecognizedEntityType {
    /// The primary message.
    pub fn to_string(&self) -> (out: String)
        ensures
            out@ == self@.message(),
    {
        surround("unrecognized entity type `", self.actual_entity_type.as_str(), "`")
    }

    /// The help text.
    pub fn help(&self) -> (out: Option<String>)
        ensures
            opt_text(out) == self@.help(),
    {
        suggest(&self.suggested_entity_type)
    }
}

/// A policy names an action that the schema does not declare.
#[derive(Debug, PartialEq, Eq, Hash)]
pub struct UnrecognizedActionId {
    /// The action seen in the policy.
    pub actual_action_id: String,
    /// An action of the schema that may have been meant.
    pub suggested_action_id: Option<String>,
}

impl View for UnrecognizedActionId {
    type V = SpecErrorKind;

    open spec fn view(&self) -> SpecErrorKind {
        SpecErrorKind::UnrecognizedActionId {
            actual_action_id: self.actual_action_id@,
            suggested_action_id: opt_text(self.suggested_action_id),
        }
    }
}

impl UnrecognizedActionId {
    /// The primary message.
    pub fn to_string(&self) -> (out: String)
        ensures
            out@ == self@.message(),
    {
        surround("unrecognized action `", self.actual_action_id.as_str(), "`")
    }

    /// The help text.
    pub fn help(&self) -> (out: Option<String>)
        ensures
            opt_text(out) == self@.help(),
    {
        suggest(&self.suggested_action_id)
    }
}

/// No action that the action scope admits applies to a principal and a
/// resource that the other scopes admit.
#[derive(Debug, Clone, Copy, PartialEq, Eq, Hash)]
pub struct InvalidActionApplication {
    /// Whether `in` for `==` in the principal scope would admit a request.
    pub would_in_fix_principal: bool,
    /// Whether `in` for `==` in the resource scope would admit a request.
    pub would_in_fix_resource: bool,
}

impl View for InvalidActionApplication {
    type V = SpecErrorKind;

    open spec fn view(&self) -> SpecErrorKind {
        SpecErrorKind::InvalidActionApplication {
            would_in_fix_principal: self.would_in_fix_principal,
            would_in_fix_resource: self.would_in_fix_resource,
        }
    }
}

impl InvalidActionApplication {
    /// The primary message.
    pub fn to_string(&self) -> (out: String)
        ensures
            out@ == self@.message(),
    {
        String::from_str("unable to find an applicable action given the policy scope constraints")
    }

    /// The help text.
    pub fn help(&self) -> (out: Option<String>)
        ensures
            opt_text(out) == self@.help(),
    {
        match (self.would_in_fix_principal, self.would_in_fix_resource) {
            (true, false) => Some(
                String::from_str("try replacing `==` with `in` in the principal clause"),
            ),
            (false, true) => Some(
                String::from_str("try replacing `==` with `in` in the resource clause"),
            ),
            (true, true) => Some(
                String::from_str(
                    "try replacing `==` with `in` in the principal clause and the resource clause",
                ),
            ),
            (false, false) => None,
        }
    }
}

/// A policy uses an entity without a type.
#[derive(Debug, PartialEq, Eq, Hash)]
pub struct UnspecifiedEntity {
    /// The id of the entity.
    pub entity_id: String,
}

impl View for UnspecifiedEntity {
    type V = SpecErrorKind;

    open spec fn view(&self) -> SpecErrorKind {
        SpecErrorKind::UnspecifiedEntity { entity_id: self.entity_id@ }
    }
}

impl UnspecifiedEntity {
    /// The primary message.
    pub fn to_string(&self) -> (out: String)
        ensures
            out@ == self@.message(),
    {
        surround("unspecified entity with id `", self.entity_id.as_str(), "`")
    }

    /// The help text.
    pub fn help(&self) -> (out: Option<String>)
        ensures
            opt_text(out) == self@.help(),
    {
        Some(String::from_str("unspecified entities cannot be used in policies"))
    }
}

/// An expression has a type that is a subtype of none of the expected ones.
#[derive(Debug, PartialEq, Eq, Hash)]
pub struct UnexpectedType {
    /// The expected types, in ascending order, each once.
    pub expected: Vec<Type>,
    /// The type found.
    pub actual: Type,
    /// What to try instead.
    pub help: Option<UnexpectedTypeHelp>,
}

impl View for UnexpectedType {
    type V = SpecErrorKind;

    open spec fn view(&self) -> SpecErrorKind {
        SpecErrorKind::UnexpectedType {
            expected: types_view(self.expected@),
            actual: self.actual@,
            help: self.help,
        }
    }
}

impl UnexpectedType {
    /// The primary message.
    pub fn to_string(&self) -> (out: String)
        ensures
            out@ == self@.message(),
    {
        let expected = join(&render_all(&type_set_of(clone_types(&self.expected))), ", or ");
        let mut out = surround("unexpected type: expected ", expected.as_str(), " but saw ");
        out.append(self.actual.to_string().as_str());
        out
    }

    /// The help text.
    pub fn help(&self) -> (out: Option<String>)
        ensures
            opt_text(out) == self@.help(),
    {
        match &self.help {
            Some(h) => Some(h.to_string()),
            None => None,
        }
    }
}

/// Some types have no least upper bound.
#[derive(Debug, PartialEq, Eq, Hash)]
pub struct IncompatibleTypes {
    /// The types, in ascending order, each once.
    pub types: Vec<Type>,
    /// Why they are not compatible.
    pub hint: LubHelp,
    /// The construct that needs them to be.
    pub context: LubContext,
}

impl View for IncompatibleTypes {
    type V = SpecErrorKind;

    open spec fn view(&self) -> SpecErrorKind {
        SpecErrorKind::IncompatibleTypes {
            types: types_view(self.types@),
            hint: self.hint,
            context: self.context,
        }
    }
}

impl IncompatibleTypes {
    /// The primary message.
    pub fn to_string(&self) -> (out: String)
        ensures
            out@ == self@.message(),
    {
        let types = join_with_conjunction(
            &render_all(&type_set_of(clone_types(&self.types))),
            "and",
        );
        surround("the types ", types.as_str(), " are not compatible")
    }

    /// The help text.
    pub fn help(&self) -> (out: Option<String>)
        ensures
            opt_text(out) == self@.help(),
    {
        let mut out = self.context.to_string();
        out.append(" must have compatible types. ");
        out.append(self.hint.to_string().as_str());
        Some(out)
    }
}

/// An attribute is accessed that is not known to exist.
#[derive(Debug, PartialEq, Eq, Hash)]
pub struct UnsafeAttributeAccess {
    /// The access.
    pub attribute_access: AttributeAccess,
    /// An attribute that may have been meant.
    pub suggestion: Option<String>,
    /// Whether the attribute may exist although nothing guarantees it.
    pub may_exist: bool,
}

impl View for UnsafeAttributeAccess {
    type V = SpecErrorKind;

    open spec fn view(&self) -> SpecErrorKind {
        SpecErrorKind::UnsafeAttributeAccess {
            attribute_access: self.attribute_access@,
            suggestion: opt_text(self.suggestion),
            may_exist: self.may_exist,
        }
    }
}

impl UnsafeAttributeAccess {
    /// The primary message.
    pub fn to_string(&self) -> (out: String)
        ensures
            out@ == self@.message(),
    {
        surround("attribute ", self.attribute_access.to_string().as_str(), " not found")
    }

    /// The help text.
    pub fn help(&self) -> (out: Option<String>)
        ensures
            opt_text(out) == self@.help(),
    {
        match (&self.suggestion, self.may_exist) {
            (Some(suggestion), false) => Some(
                surround("did you mean `", suggestion.as_str(), "`?"),
            ),
            (None, true) => Some(
                String::from_str(
                    "there may be additional attributes that the validator is not able to reason about",
                ),
            ),
            (Some(suggestion), true) => {
                let mut out = surround("did you mean `", suggestion.as_str(), "`?");
                out.append(
                    " (there may also be additional attributes that the validator is not able to reason about)",
                );
                Some(out)
            },
            (None, false) => None,
        }
    }
}

/// An optional attribute is accessed where it is not known to be present.
#[derive(Debug, PartialEq, Eq, Hash)]
pub struct UnsafeOptionalAttributeAccess {
    /// The access.
    pub attribute_access: AttributeAccess,
}

impl View for UnsafeOptionalAttributeAccess {
    type V = SpecErrorKind;

    open spec fn view(&self) -> SpecErrorKind {
        SpecErrorKind::UnsafeOptionalAttributeAccess { attribute_access: self.attribute_access@ }
    }
}

impl UnsafeOptionalAttributeAccess {
    /// The primary message.
    pub fn to_string(&self) -> (out: String)
        ensures
            out@ == self@.message(),
    {
        let mut out = String::from_str(
            "unable to guarantee safety of access to optional attribute ",
        );
        out.append(self.attribute_access.to_string().as_str());
        out
    }

    /// The help text.
    pub fn help(&self) -> (out: Option<String>)
        ensures
            opt_text(out) == self@.help(),
    {
        Some(
            surround(
                "try testing for the attribute with `",
                self.attribute_access.suggested_has_guard().as_str(),
                " && ..`",
            ),
        )
    }
}

/// An extension function is called that is not defined.
#[derive(Debug, PartialEq, Eq, Hash)]
pub struct UndefinedFunction {
    pub name: String,
}

impl View for UndefinedFunction {
    type V = SpecErrorKind;

    open spec fn view(&self) -> SpecErrorKind {
        SpecErrorKind::UndefinedFunction { name: self.name@ }
    }
}

impl UndefinedFunction {
    /// The primary message.
    pub fn to_string(&self) -> (out: String)
        ensures
            out@ == self@.message(),
    {
        let mut out = String::from_str("undefined extension function: ");
        out.append(self.name.as_str());
        out
    }
}

/// An extension function is called that is defined more than once.
#[derive(Debug, PartialEq, Eq, Hash)]
pub struct MultiplyDefinedFunction {
    pub name: String,
}

impl View for MultiplyDefinedFunction {
    type V = SpecErrorKind;

    open spec fn view(&self) -> SpecErrorKind {
        SpecErrorKind::MultiplyDefinedFunction { name: self.name@ }
    }
}

impl MultiplyDefinedFunction {
    /// The primary message.
    pub fn to_string(&self) -> (out: String)
        ensures
            out@ == self@.message(),
    {
        let mut out = String::from_str("extension function defined multiple times: ");
        out.append(self.name.as_str());
        out
    }
}

/// An extension function is called with the wrong number of arguments.
#[derive(Debug, Clone, Copy, PartialEq, Eq, Hash)]
pub struct WrongNumberArguments {
    pub expected: usize,
    pub actual: usize,
}

impl View for WrongNumberArguments {
    type V = SpecErrorKind;

    open spec fn view(&self) -> SpecErrorKind {
        SpecErrorKind::WrongNumberArguments {
            expected: self.expected as nat,
            actual: self.actual as nat,
        }
    }
}

impl WrongNumberArguments {
    /// The primary message.
    pub fn to_string(&self) -> (out: String)
        ensures
            out@ == self@.message(),
    {
        let mut out = surround(
            "wrong number of arguments in extension function application. Expected ",
            decimal_text(self.expected).as_str(),
            ", got ",
        );
        out.append(decimal_text(self.actual).as_str());
        out
    }
}

/// An extension function is called in the wrong style.
#[derive(Debug, Clone, Copy, PartialEq, Eq, Hash)]
pub struct WrongCallStyle {
    pub expected: CallStyle,
    pub actual: CallStyle,
}

impl View for WrongCallStyle {
    type V = SpecErrorKind;

    open spec fn view(&self) -> SpecErrorKind {
        SpecErrorKind::WrongCallStyle { expected: self.expected, actual: self.actual }
    }
}

impl WrongCallStyle {
    /// The primary message.
    pub fn to_string(&self) -> (out: String)
        ensures
            out@ == self@.message(),
    {
        let mut out = surround(
            "wrong call style in extension function application. Expected ",
            self.expected.to_string().as_str(),
            ", got ",
        );
        out.append(self.actual.to_string().as_str());
        out
    }
}

/// An extension function rejects its arguments.
#[derive(Debug, PartialEq, Eq, Hash)]
pub struct FunctionArgumentValidation {
    pub msg: String,
}

impl View for FunctionArgumentValidation {
    type V = SpecErrorKind;

    open spec fn view(&self) -> SpecErrorKind {
        SpecErrorKind::FunctionArgumentValidation { msg: self.msg@ }
    }
}

impl FunctionArgumentValidation {
    /// The primary message.
    pub fn to_string(&self) -> (out: String)
        ensures
            out@ == self@.message(),
    {
        let mut out = String::from_str("error during extension function argument validation: ");
        out.append(self.msg.as_str());
        out
    }
}

/// A policy holds an empty set literal.
#[derive(Debug, Clone, Copy, PartialEq, Eq, Hash)]
pub struct EmptySetForbidden {}

impl View for EmptySetForbidden {
    type V = SpecErrorKind;

    open spec fn view(&self) -> SpecErrorKind {
        SpecErrorKind::EmptySetForbidden
    }
}

impl EmptySetForbidden {
    /// The primary message.
    pub fn to_string(&self) -> (out: String)
        ensures
            out@ == self@.message(),
    {
        String::from_str("empty set literals are forbidden in policies")
    }
}

/// An extension constructor is applied to something that is no literal.
#[derive(Debug, Clone, Copy, PartialEq, Eq, Hash)]
pub struct NonLitExtConstructor {}

impl View for NonLitExtConstructor {
    type V = SpecErrorKind;

    open spec fn view(&self) -> SpecErrorKind {
        SpecErrorKind::NonLitExtConstructor
    }
}

impl NonLitExtConstructor {
    /// The primary message.
    pub fn to_string(&self) -> (out: String)
        ensures
            out@ == self@.message(),
    {
        String::from_str("extension constructors may not be called with non-literal expressions")
    }

    /// The help text.
    pub fn help(&self) -> (out: Option<String>)
        ensures
            opt_text(out) == self@.help(),
    {
        Some(
            String::from_str(
                "consider applying extension constructors to literal values when constructing entity or context data",
            ),
        )
    }
}

/// The operands of `in` have types of which the left can never be a
/// descendant of the right.
#[derive(Debug, PartialEq, Eq, Hash)]
pub struct HierarchyNotRespected {
    /// An entity type of the left operand.
    pub in_lhs: Option<String>,
    /// An entity type of the right operand.
    pub in_rhs: Option<String>,
}

impl View for HierarchyNotRespected {
    type V = SpecErrorKind;

    open spec fn view(&self) -> SpecErrorKind {
        SpecErrorKind::HierarchyNotRespected {
            in_lhs: opt_text(self.in_lhs),
            in_rhs: opt_text(self.in_rhs),
        }
    }
}

impl HierarchyNotRespected {
    /// The primary message.
    pub fn to_string(&self) -> (out: String)
        ensures
            out@ == self@.message(),
    {
        String::from_str("operands to `in` do not respect the entity hierarchy")
    }

    /// The help text.
    pub fn help(&self) -> (out: Option<String>)
        ensures
            opt_text(out) == self@.help(),
    {
        match (&self.in_lhs, &self.in_rhs) {
            (Some(in_lhs), Some(in_rhs)) => {
                let mut out = surround("`", in_lhs.as_str(), "` cannot be a descendant of `");
                out.append(in_rhs.as_str());
                out.append("`");
                Some(out)
            },
            _ => None,
        }
    }
}

/// The kinds of type error, each with the details of that kind.
#[derive(Debug, PartialEq, Eq, Hash)]
#[non_exhaustive]
pub enum ValidationErrorKind {
    /// A policy names an entity type that the schema does not declare.
    UnrecognizedEntityType(UnrecognizedEntityType),
    /// A policy names an action that the schema does not declare.
    UnrecognizedActionId(UnrecognizedActionId),
    /// No action that the action scope admits applies to a principal and a
    /// resource that the other scopes admit.
    InvalidActionApplication(InvalidActionApplication),
    /// A policy uses an entity without a type.
    UnspecifiedEntity(UnspecifiedEntity),
    /// An expression has a type that is a subtype of none of the expected
    /// ones.
    UnexpectedType(UnexpectedType),
    /// Some types have no least upper bound.
    IncompatibleTypes(IncompatibleTypes),
    /// An attribute is accessed that is not known to exist.
    UnsafeAttributeAccess(UnsafeAttributeAccess),
    /// An optional attribute is accessed where it is not known to be present.
    UnsafeOptionalAttributeAccess(UnsafeOptionalAttributeAccess),
    /// The policy condition is false for every request. The typechecker
    /// reports this as a warning; the kind remains for those who match on it.
    ImpossiblePolicy,
    /// An extension function is called that is not defined.
    UndefinedFunction(UndefinedFunction),
    /// An extension function is called that is defined more than once.
    MultiplyDefinedFunction(MultiplyDefinedFunction),
    /// An extension function is called with the wrong number of arguments.
    WrongNumberArguments(WrongNumberArguments),
    /// An extension function is called in the wrong style.
    WrongCallStyle(WrongCallStyle),
    /// An extension function rejects its arguments.
    FunctionArgumentValidation(FunctionArgumentValidation),
    /// A policy holds an empty set literal.
    EmptySetForbidden(EmptySetForbidden),
    /// An extension constructor is applied to something that is no literal.
    NonLitExtConstructor(NonLitExtConstructor),
    /// The operands of `in` have types of which the left can never be a
    /// descendant of the right.
    HierarchyNotRespected(HierarchyNotRespected),
}

impl View for ValidationErrorKind {
    type V = SpecErrorKind;

    open spec fn view(&self) -> SpecErrorKind {
        match self {
            ValidationErrorKind::UnrecognizedEntityType(e) => e@,
            ValidationErrorKind::UnrecognizedActionId(e) => e@,
            ValidationErrorKind::InvalidActionApplication(e) => e@,
            ValidationErrorKind::UnspecifiedEntity(e) => e@,
            ValidationErrorKind::UnexpectedType(e) => e@,
            ValidationErrorKind::IncompatibleTypes(e) => e@,
            ValidationErrorKind::UnsafeAttributeAccess(e) => e@,
            ValidationErrorKind::UnsafeOptionalAttributeAccess(e) => e@,
            ValidationErrorKind::ImpossiblePolicy => SpecErrorKind::ImpossiblePolicy,
            ValidationErrorKind::UndefinedFunction(e) => e@,
            ValidationErrorKind::MultiplyDefinedFunction(e) => e@,
            ValidationErrorKind::WrongNumberArguments(e) => e@,
            ValidationErrorKind::WrongCallStyle(e) => e@,
            ValidationErrorKind::FunctionArgumentValidation(e) => e@,
            ValidationErrorKind::EmptySetForbidden(e) => e@,
            ValidationErrorKind::NonLitExtConstructor(e) => e@,
            ValidationErrorKind::HierarchyNotRespected(e) => e@,
        }
    }
}

impl Clone for ValidationErrorKind {
    fn clone(&self) -> (out: Self)
        ensures
            out@ == self@,
    {
        match self {
            ValidationErrorKind::UnrecognizedEntityType(e) => {
                ValidationErrorKind::UnrecognizedEntityType(
                    UnrecognizedEntityType {
                        actual_entity_type: e.actual_entity_type.clone(),
                        suggested_entity_type: clone_opt(&e.suggested_entity_type),
                    },
                )
            },
            ValidationErrorKind::UnrecognizedActionId(e) => {
                ValidationErrorKind::UnrecognizedActionId(
                    UnrecognizedActionId {
                        actual_action_id: e.actual_action_id.clone(),
                        suggested_action_id: clone_opt(&e.suggested_action_id),
                    },
                )
            },
            ValidationErrorKind::InvalidActionApplication(e) => {
                ValidationErrorKind::InvalidActionApplication(
                    InvalidActionApplication {
                        would_in_fix_principal: e.would_in_fix_principal,
                        would_in_fix_resource: e.would_in_fix_resource,
                    },
                )
            },
            ValidationErrorKind::UnspecifiedEntity(e) => ValidationErrorKind::UnspecifiedEntity(
                UnspecifiedEntity { entity_id: e.entity_id.clone() },
            ),
            ValidationErrorKind::UnexpectedType(e) => ValidationErrorKind::UnexpectedType(
                UnexpectedType {
                    expected: clone_types(&e.expected),
                    actual: e.actual.clone(),
                    help: e.help,
                },
            ),
            ValidationErrorKind::IncompatibleTypes(e) => ValidationErrorKind::IncompatibleTypes(
                IncompatibleTypes {
                    types: clone_types(&e.types),
                    hint: e.hint,
                    context: e.context,
                },
            ),
            ValidationErrorKind::UnsafeAttributeAccess(e) => {
                ValidationErrorKind::UnsafeAttributeAccess(
                    UnsafeAttributeAccess {
                        attribute_access: e.attribute_access.clone(),
                        suggestion: clone_opt(&e.suggestion),
                        may_exist: e.may_exist,
                    },
                )
            },
            ValidationErrorKind::UnsafeOptionalAttributeAccess(e) => {
                ValidationErrorKind::UnsafeOptionalAttributeAccess(
                    UnsafeOptionalAttributeAccess { attribute_access: e.attribute_access.clone() },
                )
            },
            ValidationErrorKind::ImpossiblePolicy => ValidationErrorKind::ImpossiblePolicy,
            ValidationErrorKind::UndefinedFunction(e) => ValidationErrorKind::UndefinedFunction(
                UndefinedFunction { name: e.name.clone() },
            ),
            ValidationErrorKind::MultiplyDefinedFunction(e) => {
                ValidationErrorKind::MultiplyDefinedFunction(
                    MultiplyDefinedFunction { name: e.name.clone() },
                )
            },
            ValidationErrorKind::WrongNumberArguments(e) => {
                ValidationErrorKind::WrongNumberArguments(
                    WrongNumberArguments { expected: e.expected, actual: e.actual },
                )
            },
            ValidationErrorKind::WrongCallStyle(e) => ValidationErrorKind::WrongCallStyle(
                WrongCallStyle { expected: e.expected, actual: e.actual },
            ),
            ValidationErrorKind::FunctionArgumentValidation(e) => {
                ValidationErrorKind::FunctionArgumentValidation(
                    FunctionArgumentValidation { msg: e.msg.clone() },
                )
            },
            ValidationErrorKind::EmptySetForbidden(_) => ValidationErrorKind::EmptySetForbidden(
                EmptySetForbidden {  },
            ),
            ValidationErrorKind::NonLitExtConstructor(_) => {
                ValidationErrorKind::NonLitExtConstructor(NonLitExtConstructor {  })
            },
            ValidationErrorKind::HierarchyNotRespected(e) => {
                ValidationErrorKind::HierarchyNotRespected(
                    HierarchyNotRespected {
                        in_lhs: clone_opt(&e.in_lhs),
                        in_rhs: clone_opt(&e.in_rhs),
                    },
                )
            },
        }
    }
}

impl ValidationErrorKind {
    /// The primary message of the error.
    pub fn to_string(&self) -> (out: String)
        ensures
            out@ == self@.message(),
    {
        match self {
            ValidationErrorKind::UnrecognizedEntityType(e) => e.to_string(),
            ValidationErrorKind::UnrecognizedActionId(e) => e.to_string(),
            ValidationErrorKind::InvalidActionApplication(e) => e.to_string(),
            ValidationErrorKind::UnspecifiedEntity(e) => e.to_string(),
            ValidationErrorKind::UnexpectedType(e) => e.to_string(),
            ValidationErrorKind::IncompatibleTypes(e) => e.to_string(),
            ValidationErrorKind::UnsafeAttributeAccess(e) => e.to_string(),
            ValidationErrorKind::UnsafeOptionalAttributeAccess(e) => e.to_string(),
            ValidationErrorKind::ImpossiblePolicy => String::from_str(
                "policy is impossible: the policy expression evaluates to false for all valid requests",
            ),
            ValidationErrorKind::UndefinedFunction(e) => e.to_string(),
            ValidationErrorKind::MultiplyDefinedFunction(e) => e.to_string(),
            ValidationErrorKind::WrongNumberArguments(e) => e.to_string(),
            ValidationErrorKind::WrongCallStyle(e) => e.to_string(),
            ValidationErrorKind::FunctionArgumentValidation(e) => e.to_string(),
            ValidationErrorKind::EmptySetForbidden(e) => e.to_string(),
            ValidationErrorKind::NonLitExtConstructor(e) => e.to_string(),
            ValidationErrorKind::HierarchyNotRespected(e) => e.to_string(),
        }
    }

    /// The help text of the error, where its kind has one.
    pub fn help(&self) -> (out: Option<String>)
        ensures
            opt_text(out) == self@.help(),
    {
        match self {
            ValidationErrorKind::UnrecognizedEntityType(e) => e.help(),
            ValidationErrorKind::UnrecognizedActionId(e) => e.help(),
            ValidationErrorKind::InvalidActionApplication(e) => e.help(),
            ValidationErrorKind::UnspecifiedEntity(e) => e.help(),
            ValidationErrorKind::UnexpectedType(e) => e.help(),
            ValidationErrorKind::IncompatibleTypes(e) => e.help(),
            ValidationErrorKind::UnsafeAttributeAccess(e) => e.help(),
            ValidationErrorKind::UnsafeOptionalAttributeAccess(e) => e.help(),
            ValidationErrorKind::NonLitExtConstructor(e) => e.help(),
            ValidationErrorKind::HierarchyNotRespected(e) => e.help(),
            _ => None,
        }
    }
}

/// A type error: the expression that gave rise to it or the source range
/// that it is about, and its kind.
#[derive(Debug, PartialEq, Eq, Hash)]
pub struct TypeError {
    /// The expression that the error was raised on.
    pub on_expr: Option<Expr>,
    /// The source range that the error is about.
    pub source_loc: Option<Loc>,
    /// The kind of the error and its details.
    pub kind: ValidationErrorKind,
}

/// A type error as a mathematical value.
pub struct SpecTypeError {
    pub on_expr: Option<SpecExpr>,
    pub source_loc: Option<SpecLoc>,
    pub kind: SpecErrorKind,
}

/// An optional expression as a mathematical value.
pub open spec fn on_expr_view(e: Option<Expr>) -> Option<SpecExpr> {
    match e {
        Some(e) => Some(e@),
        None => None,
    }
}

impl View for TypeError {
    type V = SpecTypeError;

    open spec fn view(&self) -> SpecTypeError {
        SpecTypeError {
            on_expr: on_expr_view(self.on_expr),
            source_loc: loc_view(self.source_loc),
            kind: self.kind@,
        }
    }
}

impl SpecTypeError {
    /// Where the error is: its own source range, or else that of the
    /// expression it was raised on.
    pub open spec fn location(self) -> Option<SpecLoc> {
        match self.source_loc {
            Some(loc) => Some(loc),
            None => match self.on_expr {
                Some(e) => e.source_loc,
                None => None,
            },
        }
    }

    /// An error of `kind` without expression or source range.
    pub open spec fn bare(kind: SpecErrorKind) -> SpecTypeError {
        SpecTypeError { on_expr: None, source_loc: None, kind }
    }

    /// An error of `kind` raised on the expression `e`.
    pub open spec fn on(e: SpecExpr, kind: SpecErrorKind) -> SpecTypeError {
        SpecTypeError { on_expr: Some(e), source_loc: None, kind }
    }

    /// An error of `kind` about the source range of the expression `e`.
    pub open spec fn at(e: SpecExpr, kind: SpecErrorKind) -> SpecTypeError {
        SpecTypeError { on_expr: None, source_loc: e.source_loc, kind }
    }
}

impl Clone for TypeError {
    fn clone(&self) -> (out: Self)
        ensures
            out@ == self@,
    {
        TypeError {
            on_expr: match &self.on_expr {
                Some(e) => Some(e.clone()),
                None => None,
            },
            source_loc: clone_loc(&self.source_loc),
            kind: self.kind.clone(),
        }
    }
}

impl TypeError {
    /// The kind of the error.
    pub fn type_error_kind(self) -> (out: ValidationErrorKind)
        ensures
            out == self.kind,
    {
        self.kind
    }

    /// Where the error is.
    pub fn source_loc(&self) -> (out: Option<&Loc>)
        ensures
            out matches Some(loc) ==> self@.location() == Some(loc@),
            out is None ==> self@.location() is None,
    {
        match &self.source_loc {
            Some(loc) => Some(loc),
            None => match &self.on_expr {
                Some(e) => match &e.source_loc {
                    Some(loc) => Some(loc),
                    None => None,
                },
                None => None,
            },
        }
    }

    /// The kind of the error and where it is.
    pub fn kind_and_location(self) -> (out: (ValidationErrorKind, Option<Loc>))
        ensures
            out.0 == self.kind,
            loc_view(out.1) == self@.location(),
    {
        let loc = match self.source_loc() {
            Some(l) => Some(l.clone()),
            None => None,
        };
        (self.kind, loc)
    }

    /// The primary message of the error.
    pub fn to_string(&self) -> (out: String)
        ensures
            out@ == self@.kind.message(),
    {
        self.kind.to_string()
    }

    /// The help text of the error, where its kind has one.
    pub fn help(&self) -> (out: Option<String>)
        ensures
            opt_text(out) == self@.kind.help(),
    {
        self.kind.help()
    }

    /// The source range to underline, as the offsets of its start and end.
    pub fn labels(&self) -> (out: Option<(usize, usize)>)
        ensures
            out matches Some(span) ==> self@.location() matches Some(loc) && loc.start == span.0
                && loc.end == span.1,
            out is None ==> self@.location() is None,
    {
        match self.source_loc() {
            Some(loc) => Some((loc.start, loc.end)),
            None => None,
        }
    }

    /// The source text that the error's location refers to.
    pub fn source_code(&self) -> (out: Option<&String>)
        ensures
            out matches Some(src) ==> self@.location() matches Some(loc) && loc.src == src@,
            out is None ==> self@.location() is None,
    {
        match self.source_loc() {
            Some(loc) => Some(&loc.src),
            None => None,
        }
    }

    /// The error for an entity type that the schema does not declare.
    pub fn unrecognized_entity_type(
        actual_entity_type: String,
        suggested_entity_type: Option<String>,
    ) -> (out: Self)
        ensures
            out@ == SpecTypeError::bare(
                SpecErrorKind::UnrecognizedEntityType {
                    actual_entity_type: actual_entity_type@,
                    suggested_entity_type: opt_text(suggested_entity_type),
                },
            ),
    {
        TypeError {
            on_expr: None,
            source_loc: None,
            kind: ValidationErrorKind::UnrecognizedEntityType(
                UnrecognizedEntityType { actual_entity_type, suggested_entity_type },
            ),
        }
    }

    /// The error for an action that the schema does not declare.
    pub fn unrecognized_action_id(
        actual_action_id: String,
        suggested_action_id: Option<String>,
    ) -> (out: Self)
        ensures
            out@ == SpecTypeError::bare(
                SpecErrorKind::UnrecognizedActionId {
                    actual_action_id: actual_action_id@,
                    suggested_action_id: opt_text(suggested_action_id),
                },
            ),
    {
        TypeError {
            on_expr: None,
            source_loc: None,
            kind: ValidationErrorKind::UnrecognizedActionId(
                UnrecognizedActionId { actual_action_id, suggested_action_id },
            ),
        }
    }

    /// The error for a policy whose scope admits no request.
    pub fn invalid_action_application(
        would_in_fix_principal: bool,
        would_in_fix_resource: bool,
    ) -> (out: Self)
        ensures
            out@ == SpecTypeError::bare(
                SpecErrorKind::InvalidActionApplication {
                    would_in_fix_principal,
                    would_in_fix_resource,
                },
            ),
    {
        TypeError {
            on_expr: None,
            source_loc: None,
            kind: ValidationErrorKind::InvalidActionApplication(
                InvalidActionApplication { would_in_fix_principal, would_in_fix_resource },
            ),
        }
    }

    /// The error for an entity without a type.
    pub fn unspecified_entity(entity_id: String) -> (out: Self)
        ensures
            out@ == SpecTypeError::bare(SpecErrorKind::UnspecifiedEntity { entity_id: entity_id@ }),
    {
        TypeError {
            on_expr: None,
            source_loc: None,
            kind: ValidationErrorKind::UnspecifiedEntity(UnspecifiedEntity { entity_id }),
        }
    }

    /// The error for an expression whose type is a subtype of none of the
    /// `expected` types, which the error holds as a set: in ascending order,
    /// each once.
    pub fn expected_one_of_types(
        on_expr: Expr,
        expected: Vec<Type>,
        actual: Type,
        help: Option<UnexpectedTypeHelp>,
    ) -> (out: Self)
        ensures
            out@ == SpecTypeError::on(
                on_expr@,
                SpecErrorKind::UnexpectedType {
                    expected: sorted_types(types_view(expected@)),
                    actual: actual@,
                    help,
                },
            ),
            is_type_set_of(sorted_types(types_view(expected@)), types_view(expected@)),
    {
        TypeError {
            on_expr: Some(on_expr),
            source_loc: None,
            kind: ValidationErrorKind::UnexpectedType(
                UnexpectedType { expected: type_set_of(expected), actual, help },
            ),
        }
    }

    /// The error for types that have no least upper bound, which the error
    /// holds as a set: in ascending order, each once.
    pub fn incompatible_types(
        on_expr: Expr,
        types: Vec<Type>,
        hint: LubHelp,
        context: LubContext,
    ) -> (out: Self)
        ensures
            out@ == SpecTypeError::on(
                on_expr@,
                SpecErrorKind::IncompatibleTypes {
                    types: sorted_types(types_view(types@)),
                    hint,
                    context,
                },
            ),
            is_type_set_of(sorted_types(types_view(types@)), types_view(types@)),
    {
        TypeError {
            on_expr: Some(on_expr),
            source_loc: None,
            kind: ValidationErrorKind::IncompatibleTypes(
                IncompatibleTypes { types: type_set_of(types), hint, context },
            ),
        }
    }

    /// The error for an access to an attribute that is not known to exist.
    pub fn unsafe_attribute_access(
        on_expr: Expr,
        attribute_access: AttributeAccess,
        suggestion: Option<String>,
        may_exist: bool,
    ) -> (out: Self)
        ensures
            out@ == SpecTypeError::on(
                on_expr@,
                SpecErrorKind::UnsafeAttributeAccess {
                    attribute_access: attribute_access@,
                    suggestion: opt_text(suggestion),
                    may_exist,
                },
            ),
    {
        TypeError {
            on_expr: Some(on_expr),
            source_loc: None,
            kind: ValidationErrorKind::UnsafeAttributeAccess(
                UnsafeAttributeAccess { attribute_access, suggestion, may_exist },
            ),
        }
    }

    /// The error for an access to an optional attribute where it is not known
    /// to be present.
    pub fn unsafe_optional_attribute_access(
        on_expr: Expr,
        attribute_access: AttributeAccess,
    ) -> (out: Self)
        ensures
            out@ == SpecTypeError::on(
                on_expr@,
                SpecErrorKind::UnsafeOptionalAttributeAccess {
                    attribute_access: attribute_access@,
                },
            ),
    {
        TypeError {
            on_expr: Some(on_expr),
            source_loc: None,
            kind: ValidationErrorKind::UnsafeOptionalAttributeAccess(
                UnsafeOptionalAttributeAccess { attribute_access },
            ),
        }
    }

    /// The error for a call of an extension function that is not defined.
    pub fn undefined_extension(on_expr: Expr, name: String) -> (out: Self)
        ensures
            out@ == SpecTypeError::on(on_expr@, SpecErrorKind::UndefinedFunction { name: name@ }),
    {
        TypeError {
            on_expr: Some(on_expr),
            source_loc: None,
            kind: ValidationErrorKind::UndefinedFunction(UndefinedFunction { name }),
        }
    }

    /// The error for a call of an extension function that is defined more than
    /// once.
    pub fn multiply_defined_extension(on_expr: Expr, name: String) -> (out: Self)
        ensures
            out@ == SpecTypeError::on(
                on_expr@,
                SpecErrorKind::MultiplyDefinedFunction { name: name@ },
            ),
    {
        TypeError {
            on_expr: Some(on_expr),
            source_loc: None,
            kind: ValidationErrorKind::MultiplyDefinedFunction(MultiplyDefinedFunction { name }),
        }
    }

    /// The error for a call with the wrong number of arguments.
    pub fn wrong_number_args(on_expr: Expr, expected: usize, actual: usize) -> (out: Self)
        ensures
            out@ == SpecTypeError::on(
                on_expr@,
                SpecErrorKind::WrongNumberArguments {
                    expected: expected as nat,
                    actual: actual as nat,
                },
            ),
    {
        TypeError {
            on_expr: Some(on_expr),
            source_loc: None,
            kind: ValidationErrorKind::WrongNumberArguments(
                WrongNumberArguments { expected, actual },
            ),
        }
    }

    /// The error for a call in the wrong style.
    pub fn wrong_call_style(on_expr: Expr, expected: CallStyle, actual: CallStyle) -> (out: Self)
        ensures
            out@ == SpecTypeError::on(on_expr@, SpecErrorKind::WrongCallStyle { expected, actual }),
    {
        TypeError {
            on_expr: Some(on_expr),
            source_loc: None,
            kind: ValidationErrorKind::WrongCallStyle(WrongCallStyle { expected, actual }),
        }
    }

    /// The error for arguments that an extension function rejects.
    pub fn function_argument_validation(on_expr: Expr, msg: String) -> (out: Self)
        ensures
            out@ == SpecTypeError::on(
                on_expr@,
                SpecErrorKind::FunctionArgumentValidation { msg: msg@ },
            ),
    {
        TypeError {
            on_expr: Some(on_expr),
            source_loc: None,
            kind: ValidationErrorKind::FunctionArgumentValidation(
                FunctionArgumentValidation { msg },
            ),
        }
    }

    /// The error for a set literal without elements, at the place of the
    /// literal.
    pub fn empty_set_forbidden(on_expr: Expr) -> (out: Self)
        ensures
            out@ == SpecTypeError::at(on_expr@, SpecErrorKind::EmptySetForbidden),
    {
        TypeError {
            on_expr: None,
            source_loc: on_expr.source_loc,
            kind: ValidationErrorKind::EmptySetForbidden(EmptySetForbidden {  }),
        }
    }

    /// The error for an extension constructor applied to something that is no
    /// literal, at the place of the call.
    pub fn non_lit_ext_constructor(on_expr: Expr) -> (out: Self)
        ensures
            out@ == SpecTypeError::at(on_expr@, SpecErrorKind::NonLitExtConstructor),
    {
        TypeError {
            on_expr: None,
            source_loc: on_expr.source_loc,
            kind: ValidationErrorKind::NonLitExtConstructor(NonLitExtConstructor {  }),
        }
    }

    /// The error for an `in` whose left operand can never be a descendant of
    /// its right operand, at the place of the `in`.
    pub fn hierarchy_not_respected(
        on_expr: Expr,
        in_lhs: Option<String>,
        in_rhs: Option<String>,
    ) -> (out: Self)
        ensures
            out@ == SpecTypeError::at(
                on_expr@,
                SpecErrorKind::HierarchyNotRespected {
                    in_lhs: opt_text(in_lhs),
                    in_rhs: opt_text(in_rhs),
                },
            ),
    {
        TypeError {
            on_expr: None,
            source_loc: on_expr.source_loc,
            kind: ValidationErrorKind::HierarchyNotRespected(
                HierarchyNotRespected { in_lhs, in_rhs },
            ),
        }
    }
}

impl AttributeAccess {
    /// Whether both are the same access.
    pub fn same_as(&self, other: &AttributeAccess) -> (same: bool)
        ensures
            same == (self@ == other@),
    {
        match (self, other) {
            (AttributeAccess::EntityLUB(a, x), AttributeAccess::EntityLUB(b, y)) => a.same_as(b)
                && same_strings(x, y),
            (AttributeAccess::Context(a, x), AttributeAccess::Context(b, y)) => a.same_as(b)
                && same_strings(x, y),
            (AttributeAccess::Other(x), AttributeAccess::Other(y)) => same_strings(x, y),
            _ => false,
        }
    }
}

/// Whether both hold the same advice, or both none.
pub fn same_help(a: &Option<UnexpectedTypeHelp>, b: &Option<UnexpectedTypeHelp>) -> (same: bool)
    ensures
        same == (*a == *b),
{
    match (a, b) {
        (Some(x), Some(y)) => *x == *y,
        (None, None) => true,
        _ => false,
    }
}

impl ValidationErrorKind {
    /// Whether both are the same kind of error with the same details.
    pub fn same_as(&self, other: &ValidationErrorKind) -> (same: bool)
        ensures
            same == (self@ == other@),
    {
        match (self, other) {
            (
                ValidationErrorKind::UnrecognizedEntityType(a),
                ValidationErrorKind::UnrecognizedEntityType(b),
            ) => a.actual_entity_type == b.actual_entity_type && same_opt(
                &a.suggested_entity_type,
                &b.suggested_entity_type,
            ),
            (
                ValidationErrorKind::UnrecognizedActionId(a),
                ValidationErrorKind::UnrecognizedActionId(b),
            ) => a.actual_action_id == b.actual_action_id && same_opt(
                &a.suggested_action_id,
                &b.suggested_action_id,
            ),
            (
                ValidationErrorKind::InvalidActionApplication(a),
                ValidationErrorKind::InvalidActionApplication(b),
            ) => a.would_in_fix_principal == b.would_in_fix_principal && a.would_in_fix_resource
                == b.would_in_fix_resource,
            (
                ValidationErrorKind::UnspecifiedEntity(a),
                ValidationErrorKind::UnspecifiedEntity(b),
            ) => a.entity_id == b.entity_id,
            (ValidationErrorKind::UnexpectedType(a), ValidationErrorKind::UnexpectedType(b)) => {
                same_types(&a.expected, &b.expected) && a.actual.same_as(&b.actual) && same_help(
                    &a.help,
                    &b.help,
                )
            },
            (
                ValidationErrorKind::IncompatibleTypes(a),
                ValidationErrorKind::IncompatibleTypes(b),
            ) => same_types(&a.types, &b.types) && a.hint == b.hint && a.context == b.context,
            (
                ValidationErrorKind::UnsafeAttributeAccess(a),
                ValidationErrorKind::UnsafeAttributeAccess(b),
            ) => a.attribute_access.same_as(&b.attribute_access) && same_opt(
                &a.suggestion,
                &b.suggestion,
            ) && a.may_exist == b.may_exist,
            (
                ValidationErrorKind::UnsafeOptionalAttributeAccess(a),
                ValidationErrorKind::UnsafeOptionalAttributeAccess(b),
            ) => a.attribute_access.same_as(&b.attribute_access),
            (ValidationErrorKind::ImpossiblePolicy, ValidationErrorKind::ImpossiblePolicy) => true,
            (
                ValidationErrorKind::UndefinedFunction(a),
                ValidationErrorKind::UndefinedFunction(b),
            ) => a.name == b.name,
            (
                ValidationErrorKind::MultiplyDefinedFunction(a),
                ValidationErrorKind::MultiplyDefinedFunction(b),
            ) => a.name == b.name,
            (
                ValidationErrorKind::WrongNumberArguments(a),
                ValidationErrorKind::WrongNumberArguments(b),
            ) => a.expected == b.expected && a.actual == b.actual,
            (ValidationErrorKind::WrongCallStyle(a), ValidationErrorKind::WrongCallStyle(b)) => {
                a.expected == b.expected && a.actual == b.actual
            },
            (
                ValidationErrorKind::FunctionArgumentValidation(a),
                ValidationErrorKind::FunctionArgumentValidation(b),
            ) => a.msg == b.msg,
            (
                ValidationErrorKind::EmptySetForbidden(_),
                ValidationErrorKind::EmptySetForbidden(_),
            ) => true,
            (
                ValidationErrorKind::NonLitExtConstructor(_),
                ValidationErrorKind::NonLitExtConstructor(_),
            ) => true,
            (
                ValidationErrorKind::HierarchyNotRespected(a),
                ValidationErrorKind::HierarchyNotRespected(b),
            ) => same_opt(&a.in_lhs, &b.in_lhs) && same_opt(&a.in_rhs, &b.in_rhs),
            _ => false,
        }
    }
}

/// Whether two errors count as one: they are of the same kind, with the same
/// details, in the same place.
pub open spec fn same_error(a: SpecTypeError, b: SpecTypeError) -> bool {
    a.kind == b.kind && a.location() == b.location()
}

impl TypeError {
    /// Whether both are the same error raised on the same expression.
    pub fn same_as(&self, other: &TypeError) -> (same: bool)
        ensures
            same == (self@ == other@),
    {
        let same_expr = match (&self.on_expr, &other.on_expr) {
            (Some(a), Some(b)) => a.same_as(b),
            (None, None) => true,
            _ => false,
        };
        same_expr && same_loc(&self.source_loc, &other.source_loc) && self.kind.same_as(
            &other.kind,
        )
    }

    /// Whether both count as one error.
    pub fn same_kind_and_location(&self, other: &TypeError) -> (same: bool)
        ensures
            same == same_error(self@, other@),
    {
        if !self.kind.same_as(&other.kind) {
            return false;
        }
        match (self.source_loc(), other.source_loc()) {
            (Some(a), Some(b)) => a.same_as(b),
            (None, None) => true,
            _ => false,
        }
    }
}

} // verus!
