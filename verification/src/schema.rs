//! The validated schema that policies are checked against: the entity types
//! with their attributes and descendants, the actions with the principals
//! and resources they apply to, and the extension functions.

use vstd::prelude::*;
use crate::expr::{CallStyle, EntityUID, SpecEntityUID};
use crate::text::texts;
use crate::types::{
    attributes_view, types_view, AttributeType, SpecAttribute, SpecType, Type,
};

verus! {

/// An entity type of the schema.
#[derive(Debug, PartialEq, Eq, Hash)]
pub struct ValidatorEntityType {
    /// The name of the entity type.
    pub name: String,
    /// The entity types whose entities can be descendants of an entity of
    /// this type, directly or through other entities.
    pub descendants: Vec<String>,
    /// The attributes that entities of this type have.
    pub attributes: Vec<(String, AttributeType)>,
    /// Whether such entities may have further attributes.
    pub open_attributes: bool,
}

/// An action of the schema.
#[derive(Debug, PartialEq, Eq, Hash)]
pub struct ValidatorActionId {
    /// The action.
    pub name: EntityUID,
    /// The entity types of the principals that the action applies to.
    pub principals: Vec<String>,
    /// The entity types of the resources that the action applies to.
    pub resources: Vec<String>,
    /// The actions that are members of this action, directly or through
    /// other actions.
    pub descendants: Vec<EntityUID>,
    /// The type of the context of requests for this action, a record type.
    pub context: Type,
    /// The attributes of the action entity.
    pub attributes: Vec<(String, AttributeType)>,
}

/// The signature of an extension function.
#[derive(Debug, PartialEq, Eq, Hash)]
pub struct ExtensionFunctionType {
    /// The name of the function.
    pub name: String,
    /// How the function is to be called.
    pub style: CallStyle,
    /// The types of the arguments; for a method, the subject comes first.
    pub argument_types: Vec<Type>,
    /// The type of the result.
    pub return_type: Type,
    /// Whether the function makes a value of an extension type from a text.
    pub is_constructor: bool,
}

/// A validated schema.
#[derive(Debug, PartialEq, Eq, Hash)]
pub struct ValidatorSchema {
    pub entity_types: Vec<ValidatorEntityType>,
    pub action_ids: Vec<ValidatorActionId>,
    pub extension_functions: Vec<ExtensionFunctionType>,
}

/// An entity type of the schema as a mathematical value.
pub struct SpecEntityDecl {
    pub name: Seq<char>,
    pub descendants: Seq<Seq<char>>,
    pub attrs: Seq<SpecAttribute>,
    pub open: bool,
}

/// An action of the schema as a mathematical value.
pub struct SpecActionDecl {
    pub name: SpecEntityUID,
    pub principals: Seq<Seq<char>>,
    pub resources: Seq<Seq<char>>,
    pub descendants: Seq<SpecEntityUID>,
    pub context: SpecType,
    pub attrs: Seq<SpecAttribute>,
}

/// The signature of an extension function as a mathematical value.
pub struct SpecFunctionDecl {
    pub name: Seq<char>,
    pub style: CallStyle,
    pub argument_types: Seq<SpecType>,
    pub return_type: SpecType,
    pub is_constructor: bool,
}

/// A schema as a mathematical value.
pub struct SpecSchema {
    pub entities: Seq<SpecEntityDecl>,
    pub actions: Seq<SpecActionDecl>,
    pub functions: Seq<SpecFunctionDecl>,
}

/// A list of entity identifiers as mathematical values.
pub open spec fn uids_view(uids: Seq<EntityUID>) -> Seq<SpecEntityUID> {
    Seq::new(uids.len(), |i: int| uids[i]@)
}

impl View for ValidatorEntityType {
    type V = SpecEntityDecl;

    open spec fn view(&self) -> SpecEntityDecl {
        SpecEntityDecl {
            name: self.name@,
            descendants: texts(&self.descendants),
            attrs: attributes_view(self.attributes@),
            open: self.open_attributes,
        }
    }
}

impl View for ValidatorActionId {
    type V = SpecActionDecl;

    open spec fn view(&self) -> SpecActionDecl {
        SpecActionDecl {
            name: self.name@,
            principals: texts(&self.principals),
            resources: texts(&self.resources),
            descendants: uids_view(self.descendants@),
            context: self.context@,
            attrs: attributes_view(self.attributes@),
        }
    }
}

impl View for ExtensionFunctionType {
    type V = SpecFunctionDecl;

    open spec fn view(&self) -> SpecFunctionDecl {
        SpecFunctionDecl {
            name: self.name@,
            style: self.style,
            argument_types: types_view(self.argument_types@),
            return_type: self.return_type@,
            is_constructor: self.is_constructor,
        }
    }
}

impl View for ValidatorSchema {
    type V = SpecSchema;

    open spec fn view(&self) -> SpecSchema {
        SpecSchema {
            entities: Seq::new(self.entity_types@.len(), |i: int| self.entity_types@[i]@),
            actions: Seq::new(self.action_ids@.len(), |i: int| self.action_ids@[i]@),
            functions: Seq::new(
                self.extension_functions@.len(),
                |i: int| self.extension_functions@[i]@,
            ),
        }
    }
}

impl SpecSchema {
    /// The index of its first entity type named `name` at or after `from`,
    /// or the number of entity types if there is none.
    pub open spec fn entity_index(self, name: Seq<char>, from: nat) -> nat
        decreases self.entities.len() - from,
    {
        if from < self.entities.len() && self.entities[from as int].name != name {
            self.entity_index(name, from + 1)
        } else {
            from
        }
    }

    /// The entity type named `name`.
    pub open spec fn get_entity_type(self, name: Seq<char>) -> Option<SpecEntityDecl> {
        let i = self.entity_index(name, 0);
        if i < self.entities.len() {
            Some(self.entities[i as int])
        } else {
            None
        }
    }

    /// The index of its first action `uid` at or after `from`, or the number
    /// of actions if there is none.
    pub open spec fn action_index(self, uid: SpecEntityUID, from: nat) -> nat
        decreases self.actions.len() - from,
    {
        if from < self.actions.len() && self.actions[from as int].name != uid {
            self.action_index(uid, from + 1)
        } else {
            from
        }
    }

    /// The action `uid`.
    pub open spec fn get_action_id(self, uid: SpecEntityUID) -> Option<SpecActionDecl> {
        let i = self.action_index(uid, 0);
        if i < self.actions.len() {
            Some(self.actions[i as int])
        } else {
            None
        }
    }
}

impl ValidatorSchema {
    /// The schema without entity types, actions or extension functions.
    pub fn empty() -> (out: ValidatorSchema)
        ensures
            out@.entities.len() == 0,
            out@.actions.len() == 0,
            out@.functions.len() == 0,
    {
        ValidatorSchema {
            entity_types: Vec::new(),
            action_ids: Vec::new(),
            extension_functions: Vec::new(),
        }
    }

    /// The entity type named `name`.
    pub fn get_entity_type(&self, name: &String) -> (out: Option<&ValidatorEntityType>)
        ensures
            out matches Some(d) ==> self@.get_entity_type(name@) == Some(d@),
            out is None ==> self@.get_entity_type(name@) is None,
    {
        let mut i: usize = 0;
        while i < self.entity_types.len()
            invariant
                i <= self.entity_types.len(),
                self@.entity_index(name@, i as nat) == self@.entity_index(name@, 0),
            decreases self.entity_types.len() - i,
        {
            if self.entity_types[i].name == *name {
                return Some(&self.entity_types[i]);
            }
            i += 1;
        }
        None
    }

    /// The action `uid`.
    pub fn get_action_id(&self, uid: &EntityUID) -> (out: Option<&ValidatorActionId>)
        ensures
            out matches Some(d) ==> self@.get_action_id(uid@) == Some(d@),
            out is None ==> self@.get_action_id(uid@) is None,
    {
        let mut i: usize = 0;
        while i < self.action_ids.len()
            invariant
                i <= self.action_ids.len(),
                self@.action_index(uid@, i as nat) == self@.action_index(uid@, 0),
            decreases self.action_ids.len() - i,
        {
            if self.action_ids[i].name.same_as(uid) {
                return Some(&self.action_ids[i]);
            }
            i += 1;
        }
        None
    }
}

/// A schema as it is written down, before validation: the entity types and
/// the actions of one namespace.
#[derive(Debug, PartialEq, Eq, Hash)]
pub struct NamespaceDefinition {
    pub entity_types: Vec<ValidatorEntityType>,
    pub actions: Vec<ValidatorActionId>,
}

impl NamespaceDefinition {
    /// The namespace with these entity types and actions.
    pub fn new(entity_types: Vec<ValidatorEntityType>, actions: Vec<ValidatorActionId>) -> (out:
        NamespaceDefinition)
        ensures
            out.entity_types == entity_types,
            out.actions == actions,
    {
        NamespaceDefinition { entity_types, actions }
    }
}

} // verus!
