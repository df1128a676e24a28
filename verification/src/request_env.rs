//! Request environments: the assignments of principal type, action and
//! resource type under which a policy is typechecked.

use vstd::prelude::*;
use crate::expr::{EntityType, EntityUID, SpecEntityType, SpecEntityUID};
use crate::policy::{
    ActionConstraint, EntityReference, PrincipalOrResourceConstraint, SpecActionScope,
    SpecEntityReference, SpecEntityScope, SpecTemplate, Template,
};
use crate::schema::{
    uids_view, SpecActionDecl, SpecSchema, ValidatorActionId, ValidatorSchema,
};

use crate::typecheck::operators::{descends, may_be_descendant};
use crate::types::{SpecType, Type};

verus! {

/// What is known of the requests that a policy is checked against.
#[derive(Debug, PartialEq, Eq, Hash)]
pub enum RequestEnv {
    /// Requests for an action that the schema declares.
    DeclaredAction {
        principal: EntityType,
        action: EntityUID,
        resource: EntityType,
        context: Type,
        principal_slot: Option<EntityType>,
        resource_slot: Option<EntityType>,
    },
    /// Requests for an action that the schema does not declare.
    UndeclaredAction,
}

/// A request environment as a mathematical value.
pub enum SpecRequestEnv {
    DeclaredAction {
        principal: SpecEntityType,
        action: SpecEntityUID,
        resource: SpecEntityType,
        context: SpecType,
        principal_slot: Option<SpecEntityType>,
        resource_slot: Option<SpecEntityType>,
    },
    UndeclaredAction,
}

/// An optional entity type as a mathematical value.
pub open spec fn slot_view(slot: Option<EntityType>) -> Option<SpecEntityType> {
    match slot {
        Some(t) => Some(t@),
        None => None,
    }
}

impl View for RequestEnv {
    type V = SpecRequestEnv;

    open spec fn view(&self) -> SpecRequestEnv {
        match self {
            RequestEnv::DeclaredAction {
                principal,
                action,
                resource,
                context,
                principal_slot,
                resource_slot,
            } => SpecRequestEnv::DeclaredAction {
                principal: principal@,
                action: action@,
                resource: resource@,
                context: context@,
                principal_slot: slot_view(*principal_slot),
                resource_slot: slot_view(*resource_slot),
            },
            RequestEnv::UndeclaredAction => SpecRequestEnv::UndeclaredAction,
        }
    }
}

impl SpecRequestEnv {
    /// The action of the requests, where it is declared.
    pub open spec fn action_entity_uid(self) -> Option<SpecEntityUID> {
        match self {
            SpecRequestEnv::DeclaredAction { action, .. } => Some(action),
            SpecRequestEnv::UndeclaredAction => None,
        }
    }
}

impl RequestEnv {
    /// The action of the requests, where it is declared.
    pub fn action_entity_uid(&self) -> (out: Option<&EntityUID>)
        ensures
            out matches Some(uid) ==> self@.action_entity_uid() == Some(uid@),
            out is None ==> self@.action_entity_uid() is None,
    {
        match self {
            RequestEnv::DeclaredAction { action, .. } => Some(action),
            RequestEnv::UndeclaredAction => None,
        }
    }
}

/// A list of request environments as mathematical values.
pub open spec fn envs_view(envs: Seq<RequestEnv>) -> Seq<SpecRequestEnv> {
    Seq::new(envs.len(), |i: int| envs[i]@)
}

/// The requests in which a principal of type `p` asks for the action `a` on
/// a resource of type `r`.
pub open spec fn env_of(a: SpecActionDecl, p: Seq<char>, r: Seq<char>) -> SpecRequestEnv {
    SpecRequestEnv::DeclaredAction {
        principal: SpecEntityType::Specified(p),
        action: a.name,
        resource: SpecEntityType::Specified(r),
        context: a.context,
        principal_slot: None,
        resource_slot: None,
    }
}

/// The environments of the action `a` for principals of type `p` and the
/// first `n` of its resource types.
pub open spec fn envs_for_resources(a: SpecActionDecl, p: Seq<char>, n: nat) -> Seq<SpecRequestEnv>
    decreases n,
{
    if n == 0 || n > a.resources.len() {
        Seq::empty()
    } else {
        envs_for_resources(a, p, (n - 1) as nat).push(env_of(a, p, a.resources[n - 1]))
    }
}

/// The environments of the action `a` for the first `n` of its principal
/// types.
pub open spec fn envs_for_principals(a: SpecActionDecl, n: nat) -> Seq<SpecRequestEnv>
    decreases n,
{
    if n == 0 || n > a.principals.len() {
        Seq::empty()
    } else {
        envs_for_principals(a, (n - 1) as nat) + envs_for_resources(
            a,
            a.principals[n - 1],
            a.resources.len(),
        )
    }
}

/// The environments of the first `n` actions of the schema.
pub open spec fn envs_for_actions(schema: SpecSchema, n: nat) -> Seq<SpecRequestEnv>
    decreases n,
{
    if n == 0 || n > schema.actions.len() {
        Seq::empty()
    } else {
        envs_for_actions(schema, (n - 1) as nat) + envs_for_principals(
            schema.actions[n - 1],
            schema.actions[n - 1].principals.len(),
        )
    }
}

/// Every environment of the schema: for each action, each type of principal
/// and each type of resource that the action applies to.
pub open spec fn all_envs(schema: SpecSchema) -> Seq<SpecRequestEnv> {
    envs_for_actions(schema, schema.actions.len())
}

/// Whether entities of type `t` can be, or be descendants of, what `r`
/// refers to.
pub open spec fn within_reference(schema: SpecSchema, t: Seq<char>, r: SpecEntityReference) -> bool {
    match r {
        SpecEntityReference::EUID(uid) => match uid.ty {
            SpecEntityType::Specified(ancestor) => may_be_descendant(schema, t, ancestor),
            SpecEntityType::Unspecified => false,
        },
        SpecEntityReference::Slot => true,
    }
}

/// Whether the scope `scope` admits a principal or resource of type `t`.
pub open spec fn scope_admits(schema: SpecSchema, scope: SpecEntityScope, t: SpecEntityType) -> bool {
    match t {
        SpecEntityType::Unspecified => scope is Any,
        SpecEntityType::Specified(name) => match scope {
            SpecEntityScope::Any => true,
            SpecEntityScope::Eq(SpecEntityReference::EUID(uid)) => uid.ty == t,
            SpecEntityScope::Eq(SpecEntityReference::Slot) => true,
            SpecEntityScope::In(r) => within_reference(schema, name, r),
            SpecEntityScope::Is(wanted) => name == wanted,
            SpecEntityScope::IsIn(wanted, r) => name == wanted && within_reference(
                schema,
                name,
                r,
            ),
        },
    }
}

/// Whether the action `action` is `group` or one of its members.
pub open spec fn action_within(schema: SpecSchema, action: SpecEntityUID, group: SpecEntityUID) -> bool {
    action == group || match schema.get_action_id(group) {
        Some(d) => d.descendants.contains(action),
        None => false,
    }
}

/// The index of the first of `groups` at or after `from` that `action` is
/// within, or the number of groups if there is none.
pub open spec fn group_index(
    schema: SpecSchema,
    action: SpecEntityUID,
    groups: Seq<SpecEntityUID>,
    from: nat,
) -> nat
    decreases groups.len() - from,
{
    if from < groups.len() && !action_within(schema, action, groups[from as int]) {
        group_index(schema, action, groups, from + 1)
    } else {
        from
    }
}

/// Whether the action scope `scope` admits the action `action`.
pub open spec fn action_admits(schema: SpecSchema, scope: SpecActionScope, action: SpecEntityUID) -> bool {
    match scope {
        SpecActionScope::Any => true,
        SpecActionScope::Eq(uid) => action == uid,
        SpecActionScope::In(groups) => group_index(schema, action, groups, 0) < groups.len(),
    }
}

/// Whether the scopes admit requests of the environment `env`.
pub open spec fn admits(
    schema: SpecSchema,
    principal: SpecEntityScope,
    action: SpecActionScope,
    resource: SpecEntityScope,
    env: SpecRequestEnv,
) -> bool {
    match env {
        SpecRequestEnv::DeclaredAction { principal: p, action: a, resource: r, .. } => {
            &&& scope_admits(schema, principal, p)
            &&& action_admits(schema, action, a)
            &&& scope_admits(schema, resource, r)
        },
        SpecRequestEnv::UndeclaredAction => false,
    }
}

/// Those of the first `n` of `envs` that the scopes admit.
pub open spec fn admitted(
    schema: SpecSchema,
    principal: SpecEntityScope,
    action: SpecActionScope,
    resource: SpecEntityScope,
    envs: Seq<SpecRequestEnv>,
    n: nat,
) -> Seq<SpecRequestEnv>
    decreases n,
{
    if n == 0 || n > envs.len() {
        Seq::empty()
    } else {
        let before = admitted(schema, principal, action, resource, envs, (n - 1) as nat);
        if admits(schema, principal, action, resource, envs[n - 1]) {
            before.push(envs[n - 1])
        } else {
            before
        }
    }
}

/// The environments that a policy must typecheck under: those of the schema
/// that the scope of the policy admits.
pub open spec fn policy_envs(schema: SpecSchema, t: SpecTemplate) -> Seq<SpecRequestEnv> {
    admitted(schema, t.principal, t.action, t.resource, all_envs(schema), all_envs(schema).len())
}

/// The scope with `in` in place of `==`.
pub open spec fn relaxed(scope: SpecEntityScope) -> SpecEntityScope {
    match scope {
        SpecEntityScope::Eq(SpecEntityReference::EUID(uid)) => SpecEntityScope::In(
            SpecEntityReference::EUID(uid),
        ),
        _ => scope,
    }
}

/// Whether the scope compares with an entity by `==`.
pub open spec fn is_equality(scope: SpecEntityScope) -> bool {
    scope matches SpecEntityScope::Eq(SpecEntityReference::EUID(_))
}

/// Whether `in` for `==` in the principal scope of a policy would make the
/// policy admit an environment.
pub open spec fn would_in_fix_principal(schema: SpecSchema, t: SpecTemplate) -> bool {
    is_equality(t.principal) && admitted(
        schema,
        relaxed(t.principal),
        t.action,
        t.resource,
        all_envs(schema),
        all_envs(schema).len(),
    ).len() > 0
}

/// Whether `in` for `==` in the resource scope of a policy would make the
/// policy admit an environment.
pub open spec fn would_in_fix_resource(schema: SpecSchema, t: SpecTemplate) -> bool {
    is_equality(t.resource) && admitted(
        schema,
        t.principal,
        t.action,
        relaxed(t.resource),
        all_envs(schema),
        all_envs(schema).len(),
    ).len() > 0
}

impl Clone for RequestEnv {
    fn clone(&self) -> (out: Self)
        ensures
            out@ == self@,
    {
        match self {
            RequestEnv::DeclaredAction {
                principal,
                action,
                resource,
                context,
                principal_slot,
                resource_slot,
            } => RequestEnv::DeclaredAction {
                principal: principal.clone(),
                action: action.clone(),
                resource: resource.clone(),
                context: context.clone(),
                principal_slot: match principal_slot {
                    Some(t) => Some(t.clone()),
                    None => None,
                },
                resource_slot: match resource_slot {
                    Some(t) => Some(t.clone()),
                    None => None,
                },
            },
            RequestEnv::UndeclaredAction => RequestEnv::UndeclaredAction,
        }
    }
}

/// Adds to `out` the environments of the action `a`.
pub fn add_action_envs(a: &ValidatorActionId, out: &mut Vec<RequestEnv>)
    ensures
        envs_view(final(out)@) == envs_view(old(out)@) + envs_for_principals(
            a@,
            a@.principals.len(),
        ),
{
    let ghost given = envs_view(out@);
    let mut i: usize = 0;
    assert(given + envs_for_principals(a@, 0) =~= given);
    while i < a.principals.len()
        invariant
            i <= a.principals.len(),
            envs_view(out@) == given + envs_for_principals(a@, i as nat),
        decreases a.principals.len() - i,
    {
        let ghost before = envs_view(out@);
        let mut j: usize = 0;
        assert(before + envs_for_resources(a@, a@.principals[i as int], 0) =~= before);
        while j < a.resources.len()
            invariant
                i < a.principals.len(),
                j <= a.resources.len(),
                envs_view(out@) == before + envs_for_resources(
                    a@,
                    a@.principals[i as int],
                    j as nat,
                ),
            decreases a.resources.len() - j,
        {
            let ghost mid = envs_view(out@);
            let env = RequestEnv::DeclaredAction {
                principal: EntityType::Specified(a.principals[i].clone()),
                action: a.name.clone(),
                resource: EntityType::Specified(a.resources[j].clone()),
                context: a.context.clone(),
                principal_slot: None,
                resource_slot: None,
            };
            out.push(env);
            proof {
                assert(env@ == env_of(a@, a@.principals[i as int], a@.resources[j as int]));
                assert(envs_view(out@) =~= mid.push(env@));
                assert(mid.push(env@) =~= before + envs_for_resources(
                    a@,
                    a@.principals[i as int],
                    j as nat,
                ).push(env@));
            }
            j += 1;
        }
        proof {
            assert(a@.resources.len() == a.resources@.len());
            let inner = envs_for_resources(a@, a@.principals[i as int], a@.resources.len());
            assert(given + envs_for_principals(a@, i as nat) + inner =~= given + (
            envs_for_principals(a@, i as nat) + inner));
        }
        i += 1;
    }
    assert(a@.principals.len() == a.principals@.len());
}

/// Every environment of the schema.
pub fn all_request_envs(schema: &ValidatorSchema) -> (out: Vec<RequestEnv>)
    ensures
        envs_view(out@) == all_envs(schema@),
{
    let mut out: Vec<RequestEnv> = Vec::new();
    let mut i: usize = 0;
    assert(envs_view(out@) =~= envs_for_actions(schema@, 0));
    while i < schema.action_ids.len()
        invariant
            i <= schema.action_ids.len(),
            envs_view(out@) == envs_for_actions(schema@, i as nat),
        decreases schema.action_ids.len() - i,
    {
        assert(schema@.actions[i as int] == schema.action_ids@[i as int]@);
        add_action_envs(&schema.action_ids[i], &mut out);
        i += 1;
    }
    out
}

/// Whether entities of type `t` can be, or be descendants of, what `r`
/// refers to.
pub fn is_within_reference(schema: &ValidatorSchema, t: &String, r: &EntityReference) -> (out: bool)
    ensures
        out == within_reference(schema@, t@, r@),
{
    match r {
        EntityReference::EUID(uid) => match &uid.ty {
            EntityType::Specified(ancestor) => descends(schema, t, ancestor),
            EntityType::Unspecified => false,
        },
        EntityReference::Slot => true,
    }
}

/// Whether the scope `scope` admits a principal or resource of type `t`.
pub fn does_scope_admit(
    schema: &ValidatorSchema,
    scope: &PrincipalOrResourceConstraint,
    t: &EntityType,
) -> (out: bool)
    ensures
        out == scope_admits(schema@, scope@, t@),
{
    match t {
        EntityType::Unspecified => match scope {
            PrincipalOrResourceConstraint::Any => true,
            _ => false,
        },
        EntityType::Specified(name) => match scope {
            PrincipalOrResourceConstraint::Any => true,
            PrincipalOrResourceConstraint::Eq(EntityReference::EUID(uid)) => uid.ty.same_as(t),
            PrincipalOrResourceConstraint::Eq(EntityReference::Slot) => true,
            PrincipalOrResourceConstraint::In(r) => is_within_reference(schema, name, r),
            PrincipalOrResourceConstraint::Is(wanted) => *name == *wanted,
            PrincipalOrResourceConstraint::IsIn(wanted, r) => *name == *wanted
                && is_within_reference(schema, name, r),
        },
    }
}

/// Whether `uid` is one of `uids`.
pub fn has_uid(uids: &Vec<EntityUID>, uid: &EntityUID) -> (out: bool)
    ensures
        out == uids_view(uids@).contains(uid@),
{
    let mut i: usize = 0;
    while i < uids.len()
        invariant
            i <= uids.len(),
            forall|j: int| 0 <= j < i ==> uids@[j]@ != uid@,
        decreases uids.len() - i,
    {
        if uids[i].same_as(uid) {
            assert(uids_view(uids@)[i as int] == uid@);
            return true;
        }
        i += 1;
    }
    false
}

/// Whether the action `action` is `group` or one of its members.
pub fn is_action_within(schema: &ValidatorSchema, action: &EntityUID, group: &EntityUID) -> (out:
    bool)
    ensures
        out == action_within(schema@, action@, group@),
{
    if action.same_as(group) {
        return true;
    }
    match schema.get_action_id(group) {
        Some(d) => has_uid(&d.descendants, action),
        None => false,
    }
}

/// Whether the action scope `scope` admits the action `action`.
pub fn does_action_admit(schema: &ValidatorSchema, scope: &ActionConstraint, action: &EntityUID) -> (out:
    bool)
    ensures
        out == action_admits(schema@, scope@, action@),
{
    match scope {
        ActionConstraint::Any => true,
        ActionConstraint::Eq(uid) => action.same_as(uid),
        ActionConstraint::In(groups) => {
            let ghost gv = uids_view(groups@);
            let mut i: usize = 0;
            while i < groups.len()
                invariant
                    i <= groups.len(),
                    gv == uids_view(groups@),
                    gv.len() == groups@.len(),
                    scope@ == SpecActionScope::In(gv),
                    group_index(schema@, action@, gv, i as nat) == group_index(
                        schema@,
                        action@,
                        gv,
                        0,
                    ),
                decreases groups.len() - i,
            {
                assert(gv[i as int] == groups@[i as int]@);
                if is_action_within(schema, action, &groups[i]) {
                    return true;
                }
                i += 1;
            }
            false
        },
    }
}

/// Whether the scopes admit requests of the environment `env`.
pub fn do_scopes_admit(
    schema: &ValidatorSchema,
    principal: &PrincipalOrResourceConstraint,
    action: &ActionConstraint,
    resource: &PrincipalOrResourceConstraint,
    env: &RequestEnv,
) -> (out: bool)
    ensures
        out == admits(schema@, principal@, action@, resource@, env@),
{
    match env {
        RequestEnv::DeclaredAction { principal: p, action: a, resource: r, .. } => {
            does_scope_admit(schema, principal, p) && does_action_admit(schema, action, a)
                && does_scope_admit(schema, resource, r)
        },
        RequestEnv::UndeclaredAction => false,
    }
}

/// Those of `envs` that the scopes admit.
pub fn admitted_envs(
    schema: &ValidatorSchema,
    principal: &PrincipalOrResourceConstraint,
    action: &ActionConstraint,
    resource: &PrincipalOrResourceConstraint,
    envs: Vec<RequestEnv>,
) -> (out: Vec<RequestEnv>)
    ensures
        envs_view(out@) == admitted(
            schema@,
            principal@,
            action@,
            resource@,
            envs_view(envs@),
            envs@.len(),
        ),
{
    let ghost ev = envs_view(envs@);
    let mut out: Vec<RequestEnv> = Vec::new();
    let mut i: usize = 0;
    assert(envs_view(out@) =~= Seq::<SpecRequestEnv>::empty());
    while i < envs.len()
        invariant
            i <= envs.len(),
            ev == envs_view(envs@),
            envs_view(out@) == admitted(schema@, principal@, action@, resource@, ev, i as nat),
        decreases envs.len() - i,
    {
        let ghost before = envs_view(out@);
        assert(ev[i as int] == envs@[i as int]@);
        if do_scopes_admit(schema, principal, action, resource, &envs[i]) {
            let env = envs[i].clone();
            out.push(env);
            assert(envs_view(out@) =~= before.push(env@));
        }
        i += 1;
    }
    out
}

/// The environments that the policy `t` must typecheck under.
pub fn policy_request_envs(schema: &ValidatorSchema, t: &Template) -> (out: Vec<RequestEnv>)
    ensures
        envs_view(out@) == policy_envs(schema@, t@),
{
    let envs = all_request_envs(schema);
    assert(envs_view(envs@).len() == envs@.len());
    admitted_envs(
        schema,
        &t.principal_constraint,
        &t.action_constraint,
        &t.resource_constraint,
        envs,
    )
}

/// The scope with `in` in place of `==`, where it compares with an entity
/// by `==`.
pub fn relax(scope: &PrincipalOrResourceConstraint) -> (out: Option<PrincipalOrResourceConstraint>)
    ensures
        out matches Some(r) ==> is_equality(scope@) && r@ == relaxed(scope@),
        out is None ==> !is_equality(scope@),
{
    match scope {
        PrincipalOrResourceConstraint::Eq(EntityReference::EUID(uid)) => Some(
            PrincipalOrResourceConstraint::In(EntityReference::EUID(uid.clone())),
        ),
        _ => None,
    }
}

/// Whether `in` for `==` in the principal scope of `t` would make the policy
/// admit an environment.
pub fn in_would_fix_principal(schema: &ValidatorSchema, t: &Template) -> (out: bool)
    ensures
        out == would_in_fix_principal(schema@, t@),
{
    match relax(&t.principal_constraint) {
        Some(scope) => {
            let envs = all_request_envs(schema);
            assert(envs_view(envs@).len() == envs@.len());
            let found = admitted_envs(
                schema,
                &scope,
                &t.action_constraint,
                &t.resource_constraint,
                envs,
            );
            assert(envs_view(found@).len() == found@.len());
            found.len() > 0
        },
        None => false,
    }
}

/// Whether `in` for `==` in the resource scope of `t` would make the policy
/// admit an environment.
pub fn in_would_fix_resource(schema: &ValidatorSchema, t: &Template) -> (out: bool)
    ensures
        out == would_in_fix_resource(schema@, t@),
{
    match relax(&t.resource_constraint) {
        Some(scope) => {
            let envs = all_request_envs(schema);
            assert(envs_view(envs@).len() == envs@.len());
            let found = admitted_envs(
                schema,
                &t.principal_constraint,
                &t.action_constraint,
                &scope,
                envs,
            );
            assert(envs_view(found@).len() == found@.len());
            found.len() > 0
        },
        None => false,
    }
}

/// Whether the action `a` applies to principals of type `p` and resources
/// of type `r` in requests of the environment `env`.
pub open spec fn applies(a: SpecActionDecl, p: Seq<char>, r: Seq<char>, env: SpecRequestEnv) -> bool {
    a.principals.contains(p) && a.resources.contains(r) && env == env_of(a, p, r)
}

/// Whether `env` is an environment of one of the first `n` actions of the
/// schema: the requests in which a principal of a type that the action
/// applies to asks for it on a resource of a type that it applies to.
pub open spec fn is_application(schema: SpecSchema, env: SpecRequestEnv, n: nat) -> bool {
    exists|i: int, p: Seq<char>, r: Seq<char>|
        0 <= i < n && i < schema.actions.len() && #[trigger] applies(schema.actions[i], p, r, env)
}

/// An item is in two lists in a row exactly if it is in one of them.
proof fn contains_either(a: Seq<SpecRequestEnv>, b: Seq<SpecRequestEnv>, x: SpecRequestEnv)
    ensures
        (a + b).contains(x) <==> a.contains(x) || b.contains(x),
{
    if (a + b).contains(x) {
        let i = choose|i: int| 0 <= i < (a + b).len() && (a + b)[i] == x;
        if i < a.len() {
            assert(a[i] == x);
        } else {
            assert(b[i - a.len()] == x);
        }
    }
    if a.contains(x) {
        let i = choose|i: int| 0 <= i < a.len() && a[i] == x;
        assert((a + b)[i] == x);
    }
    if b.contains(x) {
        let i = choose|i: int| 0 <= i < b.len() && b[i] == x;
        assert((a + b)[a.len() + i] == x);
    }
}

/// The environments of an action for one type of principal are those for
/// that type and each of the first types of resource.
proof fn envs_for_resources_are(a: SpecActionDecl, p: Seq<char>, n: nat, env: SpecRequestEnv)
    requires
        n <= a.resources.len(),
    ensures
        envs_for_resources(a, p, n).contains(env) <==> exists|k: int|
            0 <= k < n && env == env_of(a, p, #[trigger] a.resources[k]),
    decreases n,
{
    if n > 0 {
        envs_for_resources_are(a, p, (n - 1) as nat, env);
        let before = envs_for_resources(a, p, (n - 1) as nat);
        let last = env_of(a, p, a.resources[n - 1]);
        assert(before.push(last) =~= before + seq![last]);
        contains_either(before, seq![last], env);
        if before.contains(env) {
            let k = choose|k: int|
                0 <= k < n - 1 && env == env_of(a, p, #[trigger] a.resources[k]);
            assert(0 <= k < n && env == env_of(a, p, a.resources[k]));
        }
        if seq![last].contains(env) {
            assert(seq![last][0] == last);
            let i = choose|i: int| 0 <= i < seq![last].len() && seq![last][i] == env;
            assert(env == env_of(a, p, a.resources[n - 1]));
        }
        if exists|k: int| 0 <= k < n && env == env_of(a, p, #[trigger] a.resources[k]) {
            let k = choose|k: int| 0 <= k < n && env == env_of(a, p, #[trigger] a.resources[k]);
            if k < n - 1 {
                assert(before.contains(env));
            } else {
                assert(seq![last][0] == env);
            }
        }
    }
}

/// The environments of an action are those for each of its first types of
/// principal and each of its types of resource.
proof fn envs_for_principals_are(a: SpecActionDecl, n: nat, env: SpecRequestEnv)
    requires
        n <= a.principals.len(),
    ensures
        envs_for_principals(a, n).contains(env) <==> exists|j: int, k: int|
            0 <= j < n && 0 <= k < a.resources.len() && env == env_of(
                a,
                #[trigger] a.principals[j],
                #[trigger] a.resources[k],
            ),
    decreases n,
{
    if n > 0 {
        envs_for_principals_are(a, (n - 1) as nat, env);
        let before = envs_for_principals(a, (n - 1) as nat);
        let p = a.principals[n - 1];
        let last = envs_for_resources(a, p, a.resources.len());
        envs_for_resources_are(a, p, a.resources.len(), env);
        contains_either(before, last, env);
        if before.contains(env) {
            let (j, k) = choose|j: int, k: int|
                0 <= j < n - 1 && 0 <= k < a.resources.len() && env == env_of(
                    a,
                    #[trigger] a.principals[j],
                    #[trigger] a.resources[k],
                );
            assert(0 <= j < n && env == env_of(a, a.principals[j], a.resources[k]));
        }
        if last.contains(env) {
            let k = choose|k: int|
                0 <= k < a.resources.len() && env == env_of(a, p, #[trigger] a.resources[k]);
            assert(env == env_of(a, a.principals[n - 1], a.resources[k]));
        }
        if exists|j: int, k: int|
            0 <= j < n && 0 <= k < a.resources.len() && env == env_of(
                a,
                #[trigger] a.principals[j],
                #[trigger] a.resources[k],
            ) {
            let (j, k) = choose|j: int, k: int|
                0 <= j < n && 0 <= k < a.resources.len() && env == env_of(
                    a,
                    #[trigger] a.principals[j],
                    #[trigger] a.resources[k],
                );
            if j < n - 1 {
                assert(before.contains(env));
            } else {
                assert(env == env_of(a, p, a.resources[k]));
                assert(last.contains(env));
            }
        }
    }
}

/// The environments of a schema are the applications of its actions: an
/// environment is among those of the first `n` actions exactly if one of
/// these actions applies to its type of principal and its type of resource.
pub proof fn envs_are_the_applications(schema: SpecSchema, env: SpecRequestEnv, n: nat)
    requires
        n <= schema.actions.len(),
    ensures
        envs_for_actions(schema, n).contains(env) <==> is_application(schema, env, n),
    decreases n,
{
    if n > 0 {
        envs_are_the_applications(schema, env, (n - 1) as nat);
        let before = envs_for_actions(schema, (n - 1) as nat);
        let a = schema.actions[n - 1];
        let last = envs_for_principals(a, a.principals.len());
        envs_for_principals_are(a, a.principals.len(), env);
        contains_either(before, last, env);
        if before.contains(env) {
            let (i, p, r) = choose|i: int, p: Seq<char>, r: Seq<char>|
                0 <= i < n - 1 && i < schema.actions.len() && #[trigger] applies(
                    schema.actions[i],
                    p,
                    r,
                    env,
                );
            assert(0 <= i < n && applies(schema.actions[i], p, r, env));
        }
        if last.contains(env) {
            let (j, k) = choose|j: int, k: int|
                0 <= j < a.principals.len() && 0 <= k < a.resources.len() && env == env_of(
                    a,
                    #[trigger] a.principals[j],
                    #[trigger] a.resources[k],
                );
            assert(applies(schema.actions[n - 1], a.principals[j], a.resources[k], env));
        }
        if is_application(schema, env, n) {
            let (i, p, r) = choose|i: int, p: Seq<char>, r: Seq<char>|
                0 <= i < n && i < schema.actions.len() && #[trigger] applies(
                    schema.actions[i],
                    p,
                    r,
                    env,
                );
            if i < n - 1 {
                assert(is_application(schema, env, (n - 1) as nat));
            } else {
                let j = choose|j: int| 0 <= j < a.principals.len() && a.principals[j] == p;
                let k = choose|k: int| 0 <= k < a.resources.len() && a.resources[k] == r;
                assert(env == env_of(a, a.principals[j], a.resources[k]));
                assert(last.contains(env));
            }
        }
    }
}

/// The environments that the scopes admit among the first `n` of `envs` are
/// exactly those of them that the scopes admit.
pub proof fn admitted_are_those_admitted(
    schema: SpecSchema,
    principal: SpecEntityScope,
    action: SpecActionScope,
    resource: SpecEntityScope,
    envs: Seq<SpecRequestEnv>,
    n: nat,
    env: SpecRequestEnv,
)
    requires
        n <= envs.len(),
    ensures
        admitted(schema, principal, action, resource, envs, n).contains(env) <==> admits(
            schema,
            principal,
            action,
            resource,
            env,
        ) && envs.take(n as int).contains(env),
    decreases n,
{
    if n == 0 {
        assert(envs.take(0) =~= Seq::<SpecRequestEnv>::empty());
    } else {
        admitted_are_those_admitted(schema, principal, action, resource, envs, (n - 1) as nat, env);
        let before = admitted(schema, principal, action, resource, envs, (n - 1) as nat);
        let last = envs[n - 1];
        assert(envs.take(n as int) =~= envs.take(n - 1) + seq![last]);
        contains_either(envs.take(n - 1), seq![last], env);
        assert(before.push(last) =~= before + seq![last]);
        contains_either(before, seq![last], env);
        assert(seq![last][0] == last);
        if seq![last].contains(env) {
            let i = choose|i: int| 0 <= i < seq![last].len() && seq![last][i] == env;
            assert(env == last);
        }
    }
}

/// A policy must typecheck under exactly those environments of the schema
/// that its scope admits.
pub proof fn policy_envs_are_the_admitted_applications(
    schema: SpecSchema,
    t: SpecTemplate,
    env: SpecRequestEnv,
)
    ensures
        policy_envs(schema, t).contains(env) <==> is_application(
            schema,
            env,
            schema.actions.len(),
        ) && admits(schema, t.principal, t.action, t.resource, env),
{
    let envs = all_envs(schema);
    admitted_are_those_admitted(schema, t.principal, t.action, t.resource, envs, envs.len(), env);
    envs_are_the_applications(schema, env, schema.actions.len());
    assert(envs.take(envs.len() as int) =~= envs);
}

} // verus!
