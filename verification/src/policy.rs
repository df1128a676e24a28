//! Policies as the typechecker sees them: the scope that a policy puts on
//! principal, action and resource, and its condition.

use vstd::prelude::*;
use crate::expr::{EntityUID, Expr, SpecEntityUID, SpecExpr};
use crate::schema::uids_view;

verus! {

/// The name of a policy.
#[derive(Debug, PartialEq, Eq, Hash)]
pub struct PolicyID {
    pub id: String,
}

impl View for PolicyID {
    type V = Seq<char>;

    open spec fn view(&self) -> Seq<char> {
        self.id@
    }
}

impl Clone for PolicyID {
    fn clone(&self) -> (out: Self)
        ensures
            out@ == self@,
    {
        PolicyID { id: self.id.clone() }
    }
}

impl PolicyID {
    /// The policy name `id`.
    pub fn from_string(id: &str) -> (out: PolicyID)
        ensures
            out@ == id@,
    {
        PolicyID { id: String::from_str(id) }
    }
}

/// What a scope compares the principal or the resource with: an entity, or
/// what fills the slot of a template.
#[derive(Debug, PartialEq, Eq, Hash)]
pub enum EntityReference {
    EUID(EntityUID),
    Slot,
}

/// An entity reference as a mathematical value.
pub enum SpecEntityReference {
    EUID(SpecEntityUID),
    Slot,
}

impl View for EntityReference {
    type V = SpecEntityReference;

    open spec fn view(&self) -> SpecEntityReference {
        match self {
            EntityReference::EUID(uid) => SpecEntityReference::EUID(uid@),
            EntityReference::Slot => SpecEntityReference::Slot,
        }
    }
}

/// The scope that a policy puts on its principal or on its resource.
#[derive(Debug, PartialEq, Eq, Hash)]
pub enum PrincipalOrResourceConstraint {
    /// `principal`
    Any,
    /// `principal == ..`
    Eq(EntityReference),
    /// `principal in ..`
    In(EntityReference),
    /// `principal is T`
    Is(String),
    /// `principal is T in ..`
    IsIn(String, EntityReference),
}

/// A principal or resource scope as a mathematical value.
pub enum SpecEntityScope {
    Any,
    Eq(SpecEntityReference),
    In(SpecEntityReference),
    Is(Seq<char>),
    IsIn(Seq<char>, SpecEntityReference),
}

impl View for PrincipalOrResourceConstraint {
    type V = SpecEntityScope;

    open spec fn view(&self) -> SpecEntityScope {
        match self {
            PrincipalOrResourceConstraint::Any => SpecEntityScope::Any,
            PrincipalOrResourceConstraint::Eq(r) => SpecEntityScope::Eq(r@),
            PrincipalOrResourceConstraint::In(r) => SpecEntityScope::In(r@),
            PrincipalOrResourceConstraint::Is(t) => SpecEntityScope::Is(t@),
            PrincipalOrResourceConstraint::IsIn(t, r) => SpecEntityScope::IsIn(t@, r@),
        }
    }
}

/// The scope that a policy puts on its action.
#[derive(Debug, PartialEq, Eq, Hash)]
pub enum ActionConstraint {
    /// `action`
    Any,
    /// `action in [..]`
    In(Vec<EntityUID>),
    /// `action == ..`
    Eq(EntityUID),
}

/// An action scope as a mathematical value.
pub enum SpecActionScope {
    Any,
    In(Seq<SpecEntityUID>),
    Eq(SpecEntityUID),
}

impl View for ActionConstraint {
    type V = SpecActionScope;

    open spec fn view(&self) -> SpecActionScope {
        match self {
            ActionConstraint::Any => SpecActionScope::Any,
            ActionConstraint::In(uids) => SpecActionScope::In(uids_view(uids@)),
            ActionConstraint::Eq(uid) => SpecActionScope::Eq(uid@),
        }
    }
}

/// A policy or policy template: its name, its scope and its condition.
#[derive(Debug, PartialEq, Eq, Hash)]
pub struct Template {
    pub id: PolicyID,
    pub principal_constraint: PrincipalOrResourceConstraint,
    pub action_constraint: ActionConstraint,
    pub resource_constraint: PrincipalOrResourceConstraint,
    /// What `when` and `unless` demand, as one expression.
    pub condition: Expr,
}

/// A policy as a mathematical value.
pub struct SpecTemplate {
    pub id: Seq<char>,
    pub principal: SpecEntityScope,
    pub action: SpecActionScope,
    pub resource: SpecEntityScope,
    pub condition: SpecExpr,
}

impl View for Template {
    type V = SpecTemplate;

    open spec fn view(&self) -> SpecTemplate {
        SpecTemplate {
            id: self.id@,
            principal: self.principal_constraint@,
            action: self.action_constraint@,
            resource: self.resource_constraint@,
            condition: self.condition@,
        }
    }
}

impl Template {
    /// The policy named `id` with the given scope and condition.
    pub fn new(
        id: PolicyID,
        principal_constraint: PrincipalOrResourceConstraint,
        action_constraint: ActionConstraint,
        resource_constraint: PrincipalOrResourceConstraint,
        condition: Expr,
    ) -> (out: Template)
        ensures
            out == (Template {
                id,
                principal_constraint,
                action_constraint,
                resource_constraint,
                condition,
            }),
    {
        Template { id, principal_constraint, action_constraint, resource_constraint, condition }
    }

    /// The name of the policy.
    pub fn id(&self) -> (out: &PolicyID)
        ensures
            out == self.id,
    {
        &self.id
    }

    /// The condition of the policy.
    pub fn condition(&self) -> (out: &Expr)
        ensures
            out == self.condition,
    {
        &self.condition
    }
}

} // verus!
