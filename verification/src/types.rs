//! The Cedar type lattice: types, subtyping and least upper bounds.

use vstd::prelude::*;
use crate::text::{
    clone_strings, has_string, join, joined, name_before, name_lt, same_strings, str_lt,
    text_lt, texts,
};
use crate::validation_errors::LubHelp;

verus! {

/// How strictly policies are checked.
#[derive(Debug, Clone, Copy, Hash, PartialEq, Eq, Structural)]
pub enum ValidationMode {
    /// Unequal entity types never unify and `in` must respect the hierarchy.
    Strict,
    /// Unequal entity types unify, in the last resort through `AnyEntity`.
    Permissive,
}

/// One attribute of a record type, as a mathematical value.
pub struct SpecAttribute {
    pub name: Seq<char>,
    pub ty: SpecType,
    pub required: bool,
}

/// A Cedar type as a mathematical value. Attribute lists and entity name
/// lists are kept in ascending order of names without repetition (see
/// [`SpecType::wf`]), so that equal types are equal values.
pub enum SpecType {
    /// The empty type.
    Never,
    /// The type of the literal `true`.
    True,
    /// The type of the literal `false`.
    False,
    /// Any boolean.
    Boolean,
    /// A 64-bit signed integer.
    Long,
    /// A string.
    String,
    /// A set with elements of one type; the empty set has element type `Never`.
    SetOf(Box<SpecType>),
    /// A record; an open record may have attributes beyond those listed.
    Record { attrs: Seq<SpecAttribute>, open: bool },
    /// An entity whose type is one of the names.
    Entity(Seq<Seq<char>>),
    /// An action entity whose type is one of the names.
    ActionEntity(Seq<Seq<char>>),
    /// An entity of unknown type.
    AnyEntity,
    /// A value of the named extension type.
    Extension(Seq<char>),
}

/// Every name of `x` occurs in `y`.
pub open spec fn names_subset(x: Seq<Seq<char>>, y: Seq<Seq<char>>) -> bool {
    forall|i: int| 0 <= i < x.len() ==> y.contains(#[trigger] x[i])
}

/// Strictly ascending in the order of qualified names: sorted and free of
/// repetition.
pub open spec fn names_ascending(x: Seq<Seq<char>>) -> bool {
    forall|i: int, j: int| 0 <= i < j < x.len() ==> name_lt(#[trigger] x[i], #[trigger] x[j])
}

/// The ordered union of two ascending name lists.
pub open spec fn merged(x: Seq<Seq<char>>, y: Seq<Seq<char>>) -> Seq<Seq<char>>
    decreases x.len() + y.len(),
{
    if x.len() == 0 {
        y
    } else if y.len() == 0 {
        x
    } else if x[0] == y[0] {
        seq![x[0]] + merged(x.drop_first(), y.drop_first())
    } else if name_lt(x[0], y[0]) {
        seq![x[0]] + merged(x.drop_first(), y)
    } else {
        seq![y[0]] + merged(x, y.drop_first())
    }
}

/// Both attribute lists name the same attributes in the same order.
pub open spec fn same_names(a: Seq<SpecAttribute>, b: Seq<SpecAttribute>) -> bool {
    &&& a.len() == b.len()
    &&& forall|i: int| 0 <= i < a.len() ==> (#[trigger] a[i]).name == b[i].name
}

/// The attribute names are strictly ascending.
pub open spec fn attrs_ascending(a: Seq<SpecAttribute>) -> bool {
    forall|i: int, j: int|
        0 <= i < j < a.len() ==> text_lt((#[trigger] a[i]).name, (#[trigger] a[j]).name)
}

/// How entity name lists are compared under `mode`.
pub open spec fn names_within(x: Seq<Seq<char>>, y: Seq<Seq<char>>, mode: ValidationMode) -> bool {
    match mode {
        ValidationMode::Strict => x == y,
        ValidationMode::Permissive => names_subset(x, y),
    }
}

/// The subtype relation `a <: b`.
///
/// `Never` is below every type, the singleton booleans are below `Boolean`,
/// and sets are ordered as their elements are. A record type is below one
/// with the same attributes, of the same optionality and of supertypes, that
/// is open if it is itself. An entity type is below one that holds all its
/// names, and below `AnyEntity`; under strict validation it is below itself
/// only. Types of different kinds are unrelated.
pub open spec fn subtype(a: SpecType, b: SpecType, mode: ValidationMode) -> bool
    decreases a,
{
    match (a, b) {
        (SpecType::Never, _) => true,
        (SpecType::True, SpecType::True) => true,
        (SpecType::False, SpecType::False) => true,
        (SpecType::True, SpecType::Boolean) => true,
        (SpecType::False, SpecType::Boolean) => true,
        (SpecType::Boolean, SpecType::Boolean) => true,
        (SpecType::Long, SpecType::Long) => true,
        (SpecType::String, SpecType::String) => true,
        (SpecType::SetOf(x), SpecType::SetOf(y)) => subtype(*x, *y, mode),
        (SpecType::Record { attrs: aa, open: ao }, SpecType::Record { attrs: ba, open: bo }) => {
            &&& bo || !ao
            &&& same_names(aa, ba)
            &&& forall|i: int|
                0 <= i < aa.len() ==> {
                    &&& (#[trigger] aa[i]).required == ba[i].required
                    &&& subtype(aa[i].ty, ba[i].ty, mode)
                }
        },
        (SpecType::Entity(x), SpecType::Entity(y)) => names_within(x, y, mode),
        (SpecType::ActionEntity(x), SpecType::ActionEntity(y)) => names_within(x, y, mode),
        (SpecType::AnyEntity, SpecType::AnyEntity) => true,
        (SpecType::Entity(_), SpecType::AnyEntity) => mode == ValidationMode::Permissive,
        (SpecType::ActionEntity(_), SpecType::AnyEntity) => mode == ValidationMode::Permissive,
        (SpecType::Extension(n), SpecType::Extension(m)) => n == m,
        _ => false,
    }
}

/// The least upper bound of entity name lists under `mode`.
pub open spec fn lub_names(x: Seq<Seq<char>>, y: Seq<Seq<char>>, mode: ValidationMode) -> Result<
    Seq<Seq<char>>,
    LubHelp,
> {
    match mode {
        ValidationMode::Strict => if x == y {
            Ok(x)
        } else {
            Err(LubHelp::EntityType)
        },
        ValidationMode::Permissive => Ok(merged(x, y)),
    }
}

/// What two different kinds of entity type unify to.
pub open spec fn lub_any_entity(mode: ValidationMode) -> Result<SpecType, LubHelp> {
    match mode {
        ValidationMode::Strict => Err(LubHelp::EntityType),
        ValidationMode::Permissive => Ok(SpecType::AnyEntity),
    }
}

/// The least upper bounds of the first `n` attribute pairs of two lists with
/// the same names, or the reason why the first pair without one has none.
pub open spec fn lub_attrs(
    aa: Seq<SpecAttribute>,
    ba: Seq<SpecAttribute>,
    mode: ValidationMode,
    n: nat,
) -> Result<Seq<SpecAttribute>, LubHelp>
    decreases aa, n,
{
    if n == 0 || n > aa.len() || n > ba.len() {
        Ok(Seq::empty())
    } else {
        match lub_attrs(aa, ba, mode, (n - 1) as nat) {
            Err(h) => Err(h),
            Ok(prefix) => {
                let x = aa[n - 1];
                let y = ba[n - 1];
                if x.required != y.required {
                    Err(LubHelp::AttributeQualifier)
                } else {
                    match lub(x.ty, y.ty, mode) {
                        Err(h) => Err(h),
                        Ok(t) => Ok(
                            prefix.push(SpecAttribute { name: x.name, ty: t, required: x.required }),
                        ),
                    }
                }
            },
        }
    }
}

/// The least upper bound of `a` and `b`, or the reason why there is none.
///
/// Joining with `Never` changes nothing; different booleans join to
/// `Boolean`; sets join as their elements do. Records join attribute by
/// attribute if they have the same attributes of the same optionality, and
/// the result is open if one of them is. Entity types join to the union of
/// their names, and types of different kinds of entity to `AnyEntity`; under
/// strict validation only equal entity types join. Nothing else has a least
/// upper bound.
pub open spec fn lub(a: SpecType, b: SpecType, mode: ValidationMode) -> Result<SpecType, LubHelp>
    decreases a, 0nat,
{
    match (a, b) {
        (SpecType::Never, _) => Ok(b),
        (_, SpecType::Never) => Ok(a),
        (SpecType::True, SpecType::True) => Ok(SpecType::True),
        (SpecType::False, SpecType::False) => Ok(SpecType::False),
        (
            SpecType::True | SpecType::False | SpecType::Boolean,
            SpecType::True | SpecType::False | SpecType::Boolean,
        ) => Ok(SpecType::Boolean),
        (SpecType::Long, SpecType::Long) => Ok(SpecType::Long),
        (SpecType::String, SpecType::String) => Ok(SpecType::String),
        (SpecType::SetOf(x), SpecType::SetOf(y)) => match lub(*x, *y, mode) {
            Ok(t) => Ok(SpecType::SetOf(Box::new(t))),
            Err(h) => Err(h),
        },
        (SpecType::Record { attrs: aa, open: ao }, SpecType::Record { attrs: ba, open: bo }) => {
            if !same_names(aa, ba) {
                Err(LubHelp::RecordWidth)
            } else {
                match lub_attrs(aa, ba, mode, aa.len()) {
                    Ok(attrs) => Ok(SpecType::Record { attrs, open: ao || bo }),
                    Err(h) => Err(h),
                }
            }
        },
        (SpecType::Entity(x), SpecType::Entity(y)) => match lub_names(x, y, mode) {
            Ok(names) => Ok(SpecType::Entity(names)),
            Err(h) => Err(h),
        },
        (SpecType::ActionEntity(x), SpecType::ActionEntity(y)) => match lub_names(x, y, mode) {
            Ok(names) => Ok(SpecType::ActionEntity(names)),
            Err(h) => Err(h),
        },
        (SpecType::AnyEntity, SpecType::AnyEntity) => Ok(SpecType::AnyEntity),
        (
            SpecType::Entity(_) | SpecType::ActionEntity(_) | SpecType::AnyEntity,
            SpecType::Entity(_) | SpecType::ActionEntity(_) | SpecType::AnyEntity,
        ) => lub_any_entity(mode),
        (
            SpecType::Entity(_) | SpecType::ActionEntity(_) | SpecType::AnyEntity,
            SpecType::Record { .. },
        ) => Err(LubHelp::EntityRecord),
        (
            SpecType::Record { .. },
            SpecType::Entity(_) | SpecType::ActionEntity(_) | SpecType::AnyEntity,
        ) => Err(LubHelp::EntityRecord),
        (SpecType::Extension(n), SpecType::Extension(m)) => if n == m {
            Ok(a)
        } else {
            Err(LubHelp::NoHelp)
        },
        _ => Err(LubHelp::NoHelp),
    }
}

/// Where an attribute named `name` belongs in an ascending list: the first
/// index at or after `from` whose name does not come before `name`.
pub open spec fn insertion_point(attrs: Seq<SpecAttribute>, name: Seq<char>, from: nat) -> nat
    decreases attrs.len() - from,
{
    if from < attrs.len() && text_lt(attrs[from as int].name, name) {
        insertion_point(attrs, name, from + 1)
    } else {
        from
    }
}

/// The list with `a` put in its place; an attribute of the same name makes
/// way for it.
pub open spec fn insert_attr(attrs: Seq<SpecAttribute>, a: SpecAttribute) -> Seq<SpecAttribute> {
    let p = insertion_point(attrs, a.name, 0) as int;
    if p < attrs.len() && attrs[p].name == a.name {
        attrs.update(p, a)
    } else {
        attrs.insert(p, a)
    }
}

/// The attributes in ascending order of names; of several with one name the
/// first counts.
pub open spec fn sorted_attrs(attrs: Seq<SpecAttribute>) -> Seq<SpecAttribute>
    decreases attrs.len(),
{
    if attrs.len() == 0 {
        Seq::empty()
    } else {
        insert_attr(sorted_attrs(attrs.drop_first()), attrs[0])
    }
}

/// The attribute of that name, if the list has one.
pub open spec fn find_attr(attrs: Seq<SpecAttribute>, name: Seq<char>) -> Option<SpecAttribute>
    decreases attrs.len(),
{
    if attrs.len() == 0 {
        None
    } else if attrs[0].name == name {
        Some(attrs[0])
    } else {
        find_attr(attrs.drop_first(), name)
    }
}

impl SpecType {
    /// The canonical form: attribute lists and entity name lists ascend, and
    /// no entity type is the empty set of names.
    pub open spec fn wf(self) -> bool
        decreases self,
    {
        match self {
            SpecType::SetOf(e) => e.wf(),
            SpecType::Record { attrs, open } => {
                &&& attrs_ascending(attrs)
                &&& forall|i: int| 0 <= i < attrs.len() ==> (#[trigger] attrs[i]).ty.wf()
            },
            SpecType::Entity(names) => names.len() > 0 && names_ascending(names),
            SpecType::ActionEntity(names) => names.len() > 0 && names_ascending(names),
            _ => true,
        }
    }
}

/// What the scan for the insertion point has established.
pub proof fn insertion_point_found(attrs: Seq<SpecAttribute>, name: Seq<char>, from: nat)
    requires
        from <= attrs.len(),
    ensures
        from <= insertion_point(attrs, name, from) <= attrs.len(),
        forall|k: int|
            from <= k < insertion_point(attrs, name, from) ==> text_lt(
                (#[trigger] attrs[k]).name,
                name,
            ),
        insertion_point(attrs, name, from) < attrs.len() ==> !text_lt(
            attrs[insertion_point(attrs, name, from) as int].name,
            name,
        ),
    decreases attrs.len() - from,
{
    if from < attrs.len() && text_lt(attrs[from as int].name, name) {
        insertion_point_found(attrs, name, from + 1);
    }
}

/// Putting an attribute in its place keeps an ascending list ascending.
pub proof fn insert_attr_ascending(attrs: Seq<SpecAttribute>, a: SpecAttribute)
    requires
        attrs_ascending(attrs),
    ensures
        attrs_ascending(insert_attr(attrs, a)),
{
    let p = insertion_point(attrs, a.name, 0) as int;
    insertion_point_found(attrs, a.name, 0);
    let out = insert_attr(attrs, a);
    if p < attrs.len() && attrs[p].name == a.name {
        assert forall|i: int, j: int| 0 <= i < j < out.len() implies text_lt(
            (#[trigger] out[i]).name,
            (#[trigger] out[j]).name,
        ) by {
            assert(out[i].name == attrs[i].name);
            assert(out[j].name == attrs[j].name);
        }
    } else {
        assert forall|k: int| p <= k < attrs.len() implies text_lt(
            a.name,
            (#[trigger] attrs[k]).name,
        ) by {
            crate::text::text_lt_connected(a.name, attrs[p].name);
            if k > p {
                crate::text::text_lt_transitive(a.name, attrs[p].name, attrs[k].name);
            }
        }
        assert forall|i: int, j: int| 0 <= i < j < out.len() implies text_lt(
            (#[trigger] out[i]).name,
            (#[trigger] out[j]).name,
        ) by {
            if j < p {
                assert(out[i] == attrs[i] && out[j] == attrs[j]);
            } else if j == p {
                assert(out[i] == attrs[i]);
            } else if i < p {
                assert(out[i] == attrs[i] && out[j] == attrs[j - 1]);
            } else if i == p {
                assert(out[j] == attrs[j - 1]);
            } else {
                assert(out[i] == attrs[i - 1] && out[j] == attrs[j - 1]);
            }
        }
    }
}

/// Sorting yields an ascending list.
pub proof fn sorted_attrs_ascending(attrs: Seq<SpecAttribute>)
    ensures
        attrs_ascending(sorted_attrs(attrs)),
    decreases attrs.len(),
{
    if attrs.len() > 0 {
        sorted_attrs_ascending(attrs.drop_first());
        insert_attr_ascending(sorted_attrs(attrs.drop_first()), attrs[0]);
    }
}

/// How one attribute reads in a record type: its name, `?` if it is
/// optional, and its type.
pub open spec fn attribute_text(name: Seq<char>, required: bool, ty: Seq<char>) -> Seq<char> {
    if required {
        name + ": "@ + ty
    } else {
        name + "?: "@ + ty
    }
}

/// The parts between the braces of a record type: its attributes, and `..`
/// if it is open.
pub open spec fn record_items(attrs: Seq<Seq<char>>, open: bool) -> Seq<Seq<char>> {
    if open {
        attrs.push(".."@)
    } else {
        attrs
    }
}

/// How the first `n` attributes of a record type read.
pub open spec fn attribute_texts(attrs: Seq<SpecAttribute>, n: nat) -> Seq<Seq<char>>
    decreases attrs, n,
{
    if n == 0 || n > attrs.len() {
        Seq::empty()
    } else {
        attribute_texts(attrs, (n - 1) as nat).push(
            attribute_text(attrs[n - 1].name, attrs[n - 1].required, rendered(attrs[n - 1].ty)),
        )
    }
}

/// How a type reads in messages.
pub open spec fn rendered(t: SpecType) -> Seq<char>
    decreases t, 0nat,
{
    match t {
        SpecType::Never => "Never"@,
        SpecType::True => "True"@,
        SpecType::False => "False"@,
        SpecType::Boolean => "Bool"@,
        SpecType::Long => "Long"@,
        SpecType::String => "String"@,
        SpecType::SetOf(e) => "Set<"@ + rendered(*e) + ">"@,
        SpecType::Record { attrs, open } => "{"@ + joined(
            record_items(attribute_texts(attrs, attrs.len()), open),
            ", "@,
        ) + "}"@,
        SpecType::Entity(names) => joined(names, " | "@),
        SpecType::ActionEntity(names) => joined(names, " | "@),
        SpecType::AnyEntity => "AnyEntity"@,
        SpecType::Extension(name) => name,
    }
}

/// How each type of a list reads in messages.
pub open spec fn rendered_all(types: Seq<SpecType>) -> Seq<Seq<char>> {
    Seq::new(types.len(), |i: int| rendered(types[i]))
}

/// Every attribute of a list with one put in its place is that one or one of
/// the list.
pub proof fn insert_attr_members(attrs: Seq<SpecAttribute>, a: SpecAttribute)
    ensures
        forall|i: int|
            0 <= i < insert_attr(attrs, a).len() ==> (#[trigger] insert_attr(attrs, a)[i]) == a
                || attrs.contains(insert_attr(attrs, a)[i]),
{
    let p = insertion_point(attrs, a.name, 0) as int;
    insertion_point_found(attrs, a.name, 0);
    let out = insert_attr(attrs, a);
    assert forall|i: int| 0 <= i < out.len() implies (#[trigger] out[i]) == a || attrs.contains(
        out[i],
    ) by {
        if p < attrs.len() && attrs[p].name == a.name {
            if i != p {
                assert(out[i] == attrs[i]);
            }
        } else {
            if i < p {
                assert(out[i] == attrs[i]);
            } else if i > p {
                assert(out[i] == attrs[i - 1]);
            }
        }
    }
}

/// Sorting attributes of types in canonical form gives the attributes of a
/// record type in canonical form.
pub proof fn sorted_attrs_wf(attrs: Seq<SpecAttribute>)
    requires
        forall|i: int| 0 <= i < attrs.len() ==> (#[trigger] attrs[i]).ty.wf(),
    ensures
        attrs_ascending(sorted_attrs(attrs)),
        forall|i: int|
            0 <= i < sorted_attrs(attrs).len() ==> (#[trigger] sorted_attrs(attrs)[i]).ty.wf(),
    decreases attrs.len(),
{
    sorted_attrs_ascending(attrs);
    if attrs.len() > 0 {
        let rest = attrs.drop_first();
        assert forall|i: int| 0 <= i < rest.len() implies (#[trigger] rest[i]).ty.wf() by {
            assert(rest[i] == attrs[i + 1]);
        }
        sorted_attrs_wf(rest);
        let before = sorted_attrs(rest);
        insert_attr_members(before, attrs[0]);
        let out = sorted_attrs(attrs);
        assert forall|i: int| 0 <= i < out.len() implies (#[trigger] out[i]).ty.wf() by {
            if out[i] != attrs[0] {
                assert(before.contains(out[i]));
                let k = choose|k: int| 0 <= k < before.len() && before[k] == out[i];
                assert(before[k].ty.wf());
            }
        }
    }
}

/// Whether a record type may have attributes beyond those it lists.
#[derive(Debug, Clone, Copy, Hash, PartialEq, Eq, Structural)]
pub enum OpenTag {
    /// There may be further attributes.
    OpenAttributes,
    /// The listed attributes are all there are.
    ClosedAttributes,
}

impl OpenTag {
    /// Whether there may be further attributes.
    pub open spec fn spec_is_open(self) -> bool {
        self == OpenTag::OpenAttributes
    }

    /// Whether there may be further attributes.
    #[verifier::when_used_as_spec(spec_is_open)]
    pub fn is_open(self) -> (open: bool)
        ensures
            open == self.spec_is_open(),
    {
        match self {
            OpenTag::OpenAttributes => true,
            OpenTag::ClosedAttributes => false,
        }
    }
}

/// A non-empty set of entity type names: any entity whose type is one of
/// them. The names are kept in ascending order.
#[derive(Debug, PartialEq, Eq, Hash)]
pub struct EntityLUB {
    pub names: Vec<String>,
}

/// The type of an attribute and whether the attribute is always present.
#[derive(Debug, PartialEq, Eq, Hash)]
pub struct AttributeType {
    pub attr_type: Type,
    pub is_required: bool,
}

/// A Cedar type.
#[derive(Debug, PartialEq, Eq, Hash)]
pub enum Type {
    /// The empty type.
    Never,
    /// The type of the literal `true`.
    True,
    /// The type of the literal `false`.
    False,
    /// Any boolean.
    Boolean,
    /// A 64-bit signed integer.
    Long,
    /// A string.
    String,
    /// A set with elements of one type; the empty set has element type `Never`.
    SetOf(Box<Type>),
    /// A record; an open record may have attributes beyond those listed.
    Record { attrs: Vec<(String, AttributeType)>, open: bool },
    /// An entity whose type is one of the names.
    Entity(EntityLUB),
    /// An action entity whose type is one of the names.
    ActionEntity(EntityLUB),
    /// An entity of unknown type.
    AnyEntity,
    /// A value of the named extension type.
    Extension(String),
}

impl View for EntityLUB {
    type V = Seq<Seq<char>>;

    open spec fn view(&self) -> Seq<Seq<char>> {
        texts(&self.names)
    }
}

impl View for Type {
    type V = SpecType;

    open spec fn view(&self) -> SpecType
        decreases self,
    {
        match self {
            Type::Never => SpecType::Never,
            Type::True => SpecType::True,
            Type::False => SpecType::False,
            Type::Boolean => SpecType::Boolean,
            Type::Long => SpecType::Long,
            Type::String => SpecType::String,
            Type::SetOf(e) => SpecType::SetOf(Box::new((**e).view())),
            Type::Record { attrs, open } => SpecType::Record {
                attrs: Seq::new(
                    attrs@.len(),
                    |i: int|
                        if 0 <= i < attrs@.len() {
                            SpecAttribute {
                                name: attrs@[i].0@,
                                ty: attrs@[i].1.attr_type.view(),
                                required: attrs@[i].1.is_required,
                            }
                        } else {
                            arbitrary()
                        },
                ),
                open: *open,
            },
            Type::Entity(lub) => SpecType::Entity(lub@),
            Type::ActionEntity(lub) => SpecType::ActionEntity(lub@),
            Type::AnyEntity => SpecType::AnyEntity,
            Type::Extension(name) => SpecType::Extension(name@),
        }
    }
}

impl View for AttributeType {
    type V = (SpecType, bool);

    open spec fn view(&self) -> (SpecType, bool) {
        (self.attr_type@, self.is_required)
    }
}

/// One entry of an attribute list as a mathematical value.
pub open spec fn attribute_view(a: (String, AttributeType)) -> SpecAttribute {
    SpecAttribute { name: a.0@, ty: a.1.attr_type@, required: a.1.is_required }
}

/// An attribute list as a mathematical value.
pub open spec fn attributes_view(attrs: Seq<(String, AttributeType)>) -> Seq<SpecAttribute> {
    Seq::new(attrs.len(), |i: int| attribute_view(attrs[i]))
}

/// The view of a record type is the record of the views of its attributes.
pub proof fn record_view(t: Type)
    requires
        t is Record,
    ensures
        t@ == (SpecType::Record { attrs: attributes_view(t->attrs@), open: t->open }),
{
    assert(t@->attrs =~= attributes_view(t->attrs@));
}

impl Clone for EntityLUB {
    fn clone(&self) -> (out: Self)
        ensures
            out@ == self@,
    {
        EntityLUB { names: clone_strings(&self.names) }
    }
}

impl Clone for AttributeType {
    fn clone(&self) -> (out: Self)
        ensures
            out@ == self@,
    {
        AttributeType { attr_type: self.attr_type.clone(), is_required: self.is_required }
    }
}

impl Clone for Type {
    fn clone(&self) -> (out: Self)
        ensures
            out@ == self@,
        decreases self,
    {
        match self {
            Type::Never => Type::Never,
            Type::True => Type::True,
            Type::False => Type::False,
            Type::Boolean => Type::Boolean,
            Type::Long => Type::Long,
            Type::String => Type::String,
            Type::SetOf(e) => {
                let inner: &Type = e;
                Type::SetOf(Box::new(inner.clone()))
            },
            Type::Record { attrs, open } => {
                let mut out: Vec<(String, AttributeType)> = Vec::new();
                let mut i: usize = 0;
                while i < attrs.len()
                    invariant
                        i <= attrs.len(),
                        self is Record,
                        self->attrs == *attrs,
                        out@.len() == i,
                        forall|j: int|
                            0 <= j < i ==> attribute_view(#[trigger] out@[j]) == attribute_view(
                                attrs@[j],
                            ),
                    decreases attrs.len() - i,
                {
                    let entry = &attrs[i];
                    let ty = entry.1.attr_type.clone();
                    out.push(
                        (
                            entry.0.clone(),
                            AttributeType { attr_type: ty, is_required: entry.1.is_required },
                        ),
                    );
                    i += 1;
                }
                let r = Type::Record { attrs: out, open: *open };
                proof {
                    record_view(r);
                    record_view(*self);
                    assert(attributes_view(out@) =~= attributes_view(attrs@));
                }
                r
            },
            Type::Entity(lub) => Type::Entity(lub.clone()),
            Type::ActionEntity(lub) => Type::ActionEntity(lub.clone()),
            Type::AnyEntity => Type::AnyEntity,
            Type::Extension(name) => Type::Extension(name.clone()),
        }
    }
}

impl EntityLUB {
    /// The set that holds `name` alone.
    pub fn single_entity(name: String) -> (out: EntityLUB)
        ensures
            out@ == seq![name@],
            names_ascending(out@),
    {
        let mut names: Vec<String> = Vec::new();
        names.push(name);
        let out = EntityLUB { names };
        assert(out@ =~= seq![name@]);
        out
    }

    /// The one name of a set that holds exactly one.
    pub fn get_single_entity(&self) -> (out: Option<&String>)
        ensures
            self@.len() == 1 ==> out is Some && out->Some_0@ == self@[0],
            self@.len() != 1 ==> out is None,
    {
        if self.names.len() == 1 {
            Some(&self.names[0])
        } else {
            None
        }
    }

    /// Whether `name` is one of the entity types.
    pub fn contains(&self, name: &String) -> (found: bool)
        ensures
            found == self@.contains(name@),
    {
        has_string(&self.names, name)
    }

    /// Whether every entity type of `self` is one of `other`.
    pub fn is_subset(&self, other: &EntityLUB) -> (within: bool)
        ensures
            within == names_subset(self@, other@),
    {
        let mut i: usize = 0;
        while i < self.names.len()
            invariant
                i <= self.names.len(),
                forall|j: int| 0 <= j < i ==> other@.contains(#[trigger] self@[j]),
            decreases self.names.len() - i,
        {
            if !has_string(&other.names, &self.names[i]) {
                assert(!other@.contains(self@[i as int]));
                return false;
            }
            i += 1;
        }
        true
    }

    /// Whether both sets list the same entity types.
    pub fn same_as(&self, other: &EntityLUB) -> (same: bool)
        ensures
            same == (self@ == other@),
    {
        same_strings(&self.names, &other.names)
    }

    /// Whether `self` is within `other` as `mode` compares entity types.
    pub fn is_within(&self, other: &EntityLUB, mode: ValidationMode) -> (within: bool)
        ensures
            within == names_within(self@, other@, mode),
    {
        match mode {
            ValidationMode::Strict => self.same_as(other),
            ValidationMode::Permissive => self.is_subset(other),
        }
    }

    /// The ordered union of the two sets.
    pub fn union(&self, other: &EntityLUB) -> (out: EntityLUB)
        ensures
            out@ == merged(self@, other@),
            names_ascending(self@) && names_ascending(other@) ==> names_ascending(out@),
    {
        proof {
            if names_ascending(self@) && names_ascending(other@) {
                crate::lattice::merged_ascending(self@, other@);
            }
        }
        let x = &self.names;
        let y = &other.names;
        let mut names: Vec<String> = Vec::new();
        let mut i: usize = 0;
        let mut j: usize = 0;
        proof {
            assert(texts(x).skip(0) =~= texts(x));
            assert(texts(y).skip(0) =~= texts(y));
            assert(texts(&names) + merged(texts(x), texts(y)) =~= merged(texts(x), texts(y)));
        }
        while i < x.len() && j < y.len()
            invariant
                i <= x.len(),
                j <= y.len(),
                texts(&names) + merged(texts(x).skip(i as int), texts(y).skip(j as int)) == merged(
                    texts(x),
                    texts(y),
                ),
            decreases (x.len() - i) + (y.len() - j),
        {
            let ghost xs = texts(x).skip(i as int);
            let ghost ys = texts(y).skip(j as int);
            let ghost before = texts(&names);
            proof {
                assert(xs[0] == x@[i as int]@);
                assert(ys[0] == y@[j as int]@);
                assert(xs.drop_first() =~= texts(x).skip(i + 1));
                assert(ys.drop_first() =~= texts(y).skip(j + 1));
            }
            if x[i] == y[j] {
                names.push(x[i].clone());
                i += 1;
                j += 1;
            } else if name_before(x[i].as_str(), y[j].as_str()) {
                names.push(x[i].clone());
                i += 1;
            } else {
                names.push(y[j].clone());
                j += 1;
            }
            proof {
                let head = texts(&names).last();
                assert(texts(&names) =~= before.push(head));
                let rest = merged(texts(x).skip(i as int), texts(y).skip(j as int));
                assert(merged(xs, ys) == seq![head] + rest);
                assert(before.push(head) + rest =~= before + (seq![head] + rest));
            }
        }
        while i < x.len()
            invariant
                i <= x.len(),
                j <= y.len(),
                i < x.len() ==> j == y.len(),
                texts(&names) + merged(texts(x).skip(i as int), texts(y).skip(j as int)) == merged(
                    texts(x),
                    texts(y),
                ),
            decreases x.len() - i,
        {
            let ghost before = texts(&names);
            let ghost xs = texts(x).skip(i as int);
            names.push(x[i].clone());
            proof {
                assert(texts(&names) =~= before.push(xs[0]));
                assert(texts(y).skip(j as int).len() == 0);
                assert(merged(xs, texts(y).skip(j as int)) == xs);
                assert(merged(texts(x).skip(i + 1), texts(y).skip(j as int)) == texts(x).skip(
                    i + 1,
                ));
                assert(xs =~= seq![xs[0]] + texts(x).skip(i + 1));
                assert(before.push(xs[0]) + texts(x).skip(i + 1) =~= before + (seq![xs[0]] + texts(
                    x,
                ).skip(i + 1)));
            }
            i += 1;
        }
        while j < y.len()
            invariant
                i == x.len(),
                j <= y.len(),
                texts(&names) + merged(texts(x).skip(i as int), texts(y).skip(j as int)) == merged(
                    texts(x),
                    texts(y),
                ),
            decreases y.len() - j,
        {
            let ghost before = texts(&names);
            let ghost ys = texts(y).skip(j as int);
            names.push(y[j].clone());
            proof {
                assert(texts(&names) =~= before.push(ys[0]));
                assert(texts(x).skip(i as int).len() == 0);
                assert(merged(texts(x).skip(i as int), ys) == ys);
                assert(merged(texts(x).skip(i as int), texts(y).skip(j + 1)) == texts(y).skip(
                    j + 1,
                ));
                assert(ys =~= seq![ys[0]] + texts(y).skip(j + 1));
                assert(before.push(ys[0]) + texts(y).skip(j + 1) =~= before + (seq![ys[0]] + texts(
                    y,
                ).skip(j + 1)));
            }
            j += 1;
        }
        proof {
            assert(texts(x).skip(i as int).len() == 0);
            assert(merged(texts(x).skip(i as int), texts(y).skip(j as int)) =~= Seq::<
                Seq<char>,
            >::empty());
            assert(texts(&names) + Seq::<Seq<char>>::empty() =~= texts(&names));
        }
        EntityLUB { names }
    }

    /// The least upper bound of the two sets under `mode`.
    pub fn least_upper_bound(&self, other: &EntityLUB, mode: ValidationMode) -> (out: Result<
        EntityLUB,
        LubHelp,
    >)
        ensures
            out matches Ok(l) ==> lub_names(self@, other@, mode) == Ok::<Seq<Seq<char>>, LubHelp>(
                l@,
            ),
            out matches Err(h) ==> lub_names(self@, other@, mode) == Err::<Seq<Seq<char>>, LubHelp>(
                h,
            ),
    {
        match mode {
            ValidationMode::Strict => {
                if self.same_as(other) {
                    Ok(self.clone())
                } else {
                    Err(LubHelp::EntityType)
                }
            },
            ValidationMode::Permissive => Ok(self.union(other)),
        }
    }
}

/// Once a pair of attributes has no least upper bound, no longer prefix has
/// one, and the reason stays the same.
proof fn lub_attrs_failure_stays(
    aa: Seq<SpecAttribute>,
    ba: Seq<SpecAttribute>,
    mode: ValidationMode,
    i: nat,
    n: nat,
)
    requires
        i <= n <= aa.len(),
        n <= ba.len(),
        lub_attrs(aa, ba, mode, i) is Err,
    ensures
        lub_attrs(aa, ba, mode, n) == lub_attrs(aa, ba, mode, i),
    decreases n - i,
{
    if i < n {
        lub_attrs_failure_stays(aa, ba, mode, i, (n - 1) as nat);
    }
}

impl Type {
    /// Whether both are the same type.
    pub fn same_as(&self, other: &Type) -> (same: bool)
        ensures
            same == (self@ == other@),
        decreases self,
    {
        match (self, other) {
            (Type::Never, Type::Never) => true,
            (Type::True, Type::True) => true,
            (Type::False, Type::False) => true,
            (Type::Boolean, Type::Boolean) => true,
            (Type::Long, Type::Long) => true,
            (Type::String, Type::String) => true,
            (Type::SetOf(x), Type::SetOf(y)) => {
                let x: &Type = x;
                let y: &Type = y;
                x.same_as(y)
            },
            (Type::Record { attrs: aa, open: ao }, Type::Record { attrs: ba, open: bo }) => {
                proof {
                    record_view(*self);
                    record_view(*other);
                }
                if *ao != *bo || aa.len() != ba.len() {
                    assert(attributes_view(aa@).len() == aa@.len());
                    return false;
                }
                let mut i: usize = 0;
                while i < aa.len()
                    invariant
                        i <= aa.len(),
                        aa.len() == ba.len(),
                        self is Record,
                        self->attrs == *aa,
                        self@ == (SpecType::Record { attrs: attributes_view(aa@), open: *ao }),
                        other@ == (SpecType::Record { attrs: attributes_view(ba@), open: *bo }),
                        forall|j: int|
                            0 <= j < i ==> attribute_view(#[trigger] aa@[j]) == attribute_view(
                                ba@[j],
                            ),
                    decreases aa.len() - i,
                {
                    let x = &aa[i];
                    let y = &ba[i];
                    if x.0 != y.0 || x.1.is_required != y.1.is_required || !x.1.attr_type.same_as(
                        &y.1.attr_type,
                    ) {
                        assert(attributes_view(aa@)[i as int] != attributes_view(ba@)[i as int]);
                        return false;
                    }
                    i += 1;
                }
                assert(attributes_view(aa@) =~= attributes_view(ba@));
                true
            },
            (Type::Entity(x), Type::Entity(y)) => x.same_as(y),
            (Type::ActionEntity(x), Type::ActionEntity(y)) => x.same_as(y),
            (Type::AnyEntity, Type::AnyEntity) => true,
            (Type::Extension(n), Type::Extension(m)) => *n == *m,
            _ => false,
        }
    }

    /// Whether `a` is a subtype of `b` under `mode`.
    pub fn is_subtype(a: &Type, b: &Type, mode: ValidationMode) -> (holds: bool)
        ensures
            holds == subtype(a@, b@, mode),
        decreases a,
    {
        match (a, b) {
            (Type::Never, _) => true,
            (Type::True, Type::True) => true,
            (Type::False, Type::False) => true,
            (Type::True, Type::Boolean) => true,
            (Type::False, Type::Boolean) => true,
            (Type::Boolean, Type::Boolean) => true,
            (Type::Long, Type::Long) => true,
            (Type::String, Type::String) => true,
            (Type::SetOf(x), Type::SetOf(y)) => Type::is_subtype(x, y, mode),
            (Type::Record { attrs: aa, open: ao }, Type::Record { attrs: ba, open: bo }) => {
                proof {
                    record_view(*a);
                    record_view(*b);
                }
                let ghost av = attributes_view(aa@);
                let ghost bv = attributes_view(ba@);
                if (*ao && !*bo) || aa.len() != ba.len() {
                    return false;
                }
                let mut i: usize = 0;
                while i < aa.len()
                    invariant
                        i <= aa.len(),
                        aa.len() == ba.len(),
                        a is Record,
                        a->attrs == *aa,
                        av == attributes_view(aa@),
                        bv == attributes_view(ba@),
                        a@ == (SpecType::Record { attrs: av, open: *ao }),
                        b@ == (SpecType::Record { attrs: bv, open: *bo }),
                        forall|j: int|
                            0 <= j < i ==> {
                                &&& (#[trigger] av[j]).name == bv[j].name
                                &&& av[j].required == bv[j].required
                                &&& subtype(av[j].ty, bv[j].ty, mode)
                            },
                    decreases aa.len() - i,
                {
                    let x = &aa[i];
                    let y = &ba[i];
                    if x.0 != y.0 || x.1.is_required != y.1.is_required || !Type::is_subtype(
                        &x.1.attr_type,
                        &y.1.attr_type,
                        mode,
                    ) {
                        proof {
                            let k = i as int;
                            assert(av[k].name != bv[k].name || av[k].required != bv[k].required
                                || !subtype(av[k].ty, bv[k].ty, mode));
                        }
                        return false;
                    }
                    i += 1;
                }
                true
            },
            (Type::Entity(x), Type::Entity(y)) => x.is_within(y, mode),
            (Type::ActionEntity(x), Type::ActionEntity(y)) => x.is_within(y, mode),
            (Type::AnyEntity, Type::AnyEntity) => true,
            (Type::Entity(_), Type::AnyEntity) => match mode {
                ValidationMode::Strict => false,
                ValidationMode::Permissive => true,
            },
            (Type::ActionEntity(_), Type::AnyEntity) => match mode {
                ValidationMode::Strict => false,
                ValidationMode::Permissive => true,
            },
            (Type::Extension(n), Type::Extension(m)) => *n == *m,
            _ => false,
        }
    }

    /// The least upper bound of `a` and `b` under `mode`, or the reason why
    /// they have none.
    pub fn least_upper_bound(a: &Type, b: &Type, mode: ValidationMode) -> (out: Result<
        Type,
        LubHelp,
    >)
        ensures
            out matches Ok(t) ==> lub(a@, b@, mode) == Ok::<SpecType, LubHelp>(t@),
            out matches Err(h) ==> lub(a@, b@, mode) == Err::<SpecType, LubHelp>(h),
            out matches Ok(t) ==> (a@.wf() && b@.wf() ==> t@.wf()),
        decreases a,
    {
        proof {
            if a@.wf() && b@.wf() && lub(a@, b@, mode) is Ok {
                crate::lattice::lub_wf(a@, b@, mode);
            }
        }
        match (a, b) {
            (Type::Never, _) => Ok(b.clone()),
            (_, Type::Never) => Ok(a.clone()),
            (Type::True, Type::True) => Ok(Type::True),
            (Type::False, Type::False) => Ok(Type::False),
            (
                Type::True | Type::False | Type::Boolean,
                Type::True | Type::False | Type::Boolean,
            ) => Ok(Type::Boolean),
            (Type::Long, Type::Long) => Ok(Type::Long),
            (Type::String, Type::String) => Ok(Type::String),
            (Type::SetOf(x), Type::SetOf(y)) => match Type::least_upper_bound(x, y, mode) {
                Ok(t) => Ok(Type::SetOf(Box::new(t))),
                Err(h) => Err(h),
            },
            (Type::Record { attrs: aa, open: ao }, Type::Record { attrs: ba, open: bo }) => {
                proof {
                    record_view(*a);
                    record_view(*b);
                }
                let ghost av = attributes_view(aa@);
                let ghost bv = attributes_view(ba@);
                if aa.len() != ba.len() {
                    return Err(LubHelp::RecordWidth);
                }
                let mut k: usize = 0;
                while k < aa.len()
                    invariant
                        k <= aa.len(),
                        aa.len() == ba.len(),
                        av == attributes_view(aa@),
                        bv == attributes_view(ba@),
                        a@ == (SpecType::Record { attrs: av, open: *ao }),
                        b@ == (SpecType::Record { attrs: bv, open: *bo }),
                        forall|j: int| 0 <= j < k ==> (#[trigger] av[j]).name == bv[j].name,
                    decreases aa.len() - k,
                {
                    if aa[k].0 != ba[k].0 {
                        assert(av[k as int].name != bv[k as int].name);
                        return Err(LubHelp::RecordWidth);
                    }
                    k += 1;
                }
                assert(same_names(av, bv));
                let mut attrs: Vec<(String, AttributeType)> = Vec::new();
                let mut i: usize = 0;
                assert(attributes_view(attrs@) =~= Seq::<SpecAttribute>::empty());
                while i < aa.len()
                    invariant
                        i <= aa.len(),
                        aa.len() == ba.len(),
                        a is Record,
                        a->attrs == *aa,
                        av == attributes_view(aa@),
                        bv == attributes_view(ba@),
                        a@ == (SpecType::Record { attrs: av, open: *ao }),
                        b@ == (SpecType::Record { attrs: bv, open: *bo }),
                        same_names(av, bv),
                        lub_attrs(av, bv, mode, i as nat) == Ok::<Seq<SpecAttribute>, LubHelp>(
                            attributes_view(attrs@),
                        ),
                    decreases aa.len() - i,
                {
                    let x = &aa[i];
                    let y = &ba[i];
                    let ghost before = attributes_view(attrs@);
                    if x.1.is_required != y.1.is_required {
                        proof {
                            assert(lub_attrs(av, bv, mode, (i + 1) as nat) == Err::<
                                Seq<SpecAttribute>,
                                LubHelp,
                            >(LubHelp::AttributeQualifier));
                            lub_attrs_failure_stays(av, bv, mode, (i + 1) as nat, av.len());
                        }
                        return Err(LubHelp::AttributeQualifier);
                    }
                    match Type::least_upper_bound(&x.1.attr_type, &y.1.attr_type, mode) {
                        Err(h) => {
                            proof {
                                assert(lub_attrs(av, bv, mode, (i + 1) as nat) == Err::<
                                    Seq<SpecAttribute>,
                                    LubHelp,
                                >(h));
                                lub_attrs_failure_stays(av, bv, mode, (i + 1) as nat, av.len());
                            }
                            return Err(h);
                        },
                        Ok(t) => {
                            attrs.push(
                                (
                                    x.0.clone(),
                                    AttributeType { attr_type: t, is_required: x.1.is_required },
                                ),
                            );
                            proof {
                                assert(attributes_view(attrs@) =~= before.push(
                                    SpecAttribute {
                                        name: av[i as int].name,
                                        ty: t@,
                                        required: av[i as int].required,
                                    },
                                ));
                            }
                        },
                    }
                    i += 1;
                }
                let out = Type::Record { attrs, open: *ao || *bo };
                proof {
                    record_view(out);
                }
                Ok(out)
            },
            (Type::Entity(x), Type::Entity(y)) => match x.least_upper_bound(y, mode) {
                Ok(names) => Ok(Type::Entity(names)),
                Err(h) => Err(h),
            },
            (Type::ActionEntity(x), Type::ActionEntity(y)) => match x.least_upper_bound(y, mode) {
                Ok(names) => Ok(Type::ActionEntity(names)),
                Err(h) => Err(h),
            },
            (Type::AnyEntity, Type::AnyEntity) => Ok(Type::AnyEntity),
            (
                Type::Entity(_) | Type::ActionEntity(_) | Type::AnyEntity,
                Type::Entity(_) | Type::ActionEntity(_) | Type::AnyEntity,
            ) => match mode {
                ValidationMode::Strict => Err(LubHelp::EntityType),
                ValidationMode::Permissive => Ok(Type::AnyEntity),
            },
            (
                Type::Entity(_) | Type::ActionEntity(_) | Type::AnyEntity,
                Type::Record { .. },
            ) => Err(LubHelp::EntityRecord),
            (
                Type::Record { .. },
                Type::Entity(_) | Type::ActionEntity(_) | Type::AnyEntity,
            ) => Err(LubHelp::EntityRecord),
            (Type::Extension(n), Type::Extension(m)) => if *n == *m {
                Ok(a.clone())
            } else {
                Err(LubHelp::NoHelp)
            },
            _ => Err(LubHelp::NoHelp),
        }
    }
}

/// Puts `entry` in its place in an attribute list.
pub fn insert_attribute(attrs: &mut Vec<(String, AttributeType)>, entry: (String, AttributeType))
    ensures
        attributes_view(final(attrs)@) == insert_attr(
            attributes_view(old(attrs)@),
            attribute_view(entry),
        ),
{
    let ghost before = attributes_view(attrs@);
    let ghost a = attribute_view(entry);
    let mut p: usize = 0;
    while p < attrs.len() && str_lt(attrs[p].0.as_str(), entry.0.as_str())
        invariant
            p <= attrs.len(),
            before == attributes_view(attrs@),
            a == attribute_view(entry),
            insertion_point(before, a.name, p as nat) == insertion_point(before, a.name, 0),
        decreases attrs.len() - p,
    {
        p += 1;
    }
    if p < attrs.len() && attrs[p].0 == entry.0 {
        attrs.remove(p);
        attrs.insert(p, entry);
        assert(attributes_view(attrs@) =~= before.update(p as int, a));
    } else {
        attrs.insert(p, entry);
        assert(attributes_view(attrs@) =~= before.insert(p as int, a));
    }
}

/// The entry of an attribute list with that name.
pub fn find_attribute<'a>(attrs: &'a Vec<(String, AttributeType)>, name: &String) -> (out: Option<
    &'a AttributeType,
>)
    ensures
        out matches Some(t) ==> find_attr(attributes_view(attrs@), name@) == Some(
            SpecAttribute { name: name@, ty: t.attr_type@, required: t.is_required },
        ),
        out is None ==> find_attr(attributes_view(attrs@), name@) is None,
{
    let ghost av = attributes_view(attrs@);
    let mut i: usize = 0;
    assert(av.skip(0) =~= av);
    while i < attrs.len()
        invariant
            i <= attrs.len(),
            av == attributes_view(attrs@),
            find_attr(av, name@) == find_attr(av.skip(i as int), name@),
        decreases attrs.len() - i,
    {
        assert(av.skip(i as int).drop_first() =~= av.skip(i + 1));
        if attrs[i].0 == *name {
            return Some(&attrs[i].1);
        }
        i += 1;
    }
    None
}

impl Type {
    /// The type of entities of the one entity type `name`.
    pub fn named_entity_reference(name: String) -> (out: Type)
        ensures
            out@ == SpecType::Entity(seq![name@]),
            out@.wf(),
    {
        Type::Entity(EntityLUB::single_entity(name))
    }

    /// The type of sets with elements of type `element`.
    pub fn set(element: Type) -> (out: Type)
        ensures
            out@ == SpecType::SetOf(Box::new(element@)),
            out@.wf() == element@.wf(),
    {
        Type::SetOf(Box::new(element))
    }

    /// The record type with the given attributes, put in ascending order of
    /// their names.
    pub fn record_with_attributes(attrs: Vec<(String, AttributeType)>, open: OpenTag) -> (out: Type)
        ensures
            out@ == (SpecType::Record {
                attrs: sorted_attrs(attributes_view(attrs@)),
                open: open.is_open(),
            }),
            attrs_ascending(sorted_attrs(attributes_view(attrs@))),
            (forall|i: int| 0 <= i < attrs@.len() ==> (#[trigger] attrs@[i]).1.attr_type@.wf())
                ==> out@.wf(),
    {
        proof {
            sorted_attrs_ascending(attributes_view(attrs@));
            if forall|i: int| 0 <= i < attrs@.len() ==> (#[trigger] attrs@[i]).1.attr_type@.wf() {
                let av = attributes_view(attrs@);
                assert forall|i: int| 0 <= i < av.len() implies (#[trigger] av[i]).ty.wf() by {
                    assert(attrs@[i].1.attr_type@.wf());
                }
                sorted_attrs_wf(av);
            }
        }
        let ghost given = attributes_view(attrs@);
        let mut rest = attrs;
        let mut sorted: Vec<(String, AttributeType)> = Vec::new();
        proof {
            assert(given.skip(given.len() as int) =~= Seq::<SpecAttribute>::empty());
            assert(attributes_view(sorted@) =~= Seq::<SpecAttribute>::empty());
        }
        while rest.len() > 0
            invariant
                rest@.len() <= given.len(),
                attributes_view(rest@) == given.take(rest@.len() as int),
                attributes_view(sorted@) == sorted_attrs(given.skip(rest@.len() as int)),
            decreases rest.len(),
        {
            let ghost n = rest@.len() as int;
            let ghost before = attributes_view(rest@);
            let entry = rest.pop().unwrap();
            proof {
                assert(attribute_view(entry) == before[n - 1]);
                assert(attributes_view(rest@) =~= given.take(n - 1));
                assert(given.skip(n - 1).drop_first() =~= given.skip(n));
                assert(given.skip(n - 1)[0] == attribute_view(entry));
            }
            insert_attribute(&mut sorted, entry);
        }
        proof {
            assert(given.skip(0) =~= given);
        }
        let out = Type::Record { attrs: sorted, open: open.is_open() };
        proof {
            record_view(out);
        }
        out
    }
}

impl Type {
    /// How the type reads in messages.
    pub fn to_string(&self) -> (out: String)
        ensures
            out@ == rendered(self@),
        decreases self,
    {
        match self {
            Type::Never => String::from_str("Never"),
            Type::True => String::from_str("True"),
            Type::False => String::from_str("False"),
            Type::Boolean => String::from_str("Bool"),
            Type::Long => String::from_str("Long"),
            Type::String => String::from_str("String"),
            Type::SetOf(e) => {
                let inner: &Type = e;
                let mut out = String::from_str("Set<");
                out.append(inner.to_string().as_str());
                out.append(">");
                assert(out@ =~= rendered(self@));
                out
            },
            Type::Record { attrs, open } => {
                proof {
                    record_view(*self);
                }
                let ghost av = attributes_view(attrs@);
                let mut items: Vec<String> = Vec::new();
                let mut i: usize = 0;
                assert(texts(&items) =~= attribute_texts(av, 0));
                while i < attrs.len()
                    invariant
                        i <= attrs.len(),
                        self is Record,
                        self->attrs == *attrs,
                        av == attributes_view(attrs@),
                        texts(&items) == attribute_texts(av, i as nat),
                    decreases attrs.len() - i,
                {
                    let entry = &attrs[i];
                    let ghost before = texts(&items);
                    let mut item = entry.0.clone();
                    if entry.1.is_required {
                        item.append(": ");
                    } else {
                        item.append("?: ");
                    }
                    item.append(entry.1.attr_type.to_string().as_str());
                    proof {
                        let a = av[i as int];
                        assert(item@ =~= attribute_text(a.name, a.required, rendered(a.ty)));
                    }
                    items.push(item);
                    assert(texts(&items) =~= before.push(item@));
                    i += 1;
                }
                let ghost listed = texts(&items);
                if *open {
                    items.push(String::from_str(".."));
                }
                proof {
                    assert(texts(&items) =~= record_items(listed, *open));
                }
                let mut out = String::from_str("{");
                out.append(join(&items, ", ").as_str());
                out.append("}");
                assert(out@ =~= rendered(self@));
                out
            },
            Type::Entity(lub) => join(&lub.names, " | "),
            Type::ActionEntity(lub) => join(&lub.names, " | "),
            Type::AnyEntity => String::from_str("AnyEntity"),
            Type::Extension(name) => name.clone(),
        }
    }
}

/// How each of `types` reads in messages.
pub fn render_all(types: &Vec<Type>) -> (out: Vec<String>)
    ensures
        texts(&out) == rendered_all(types_view(types@)),
{
    let mut out: Vec<String> = Vec::new();
    let mut i: usize = 0;
    while i < types.len()
        invariant
            i <= types.len(),
            out@.len() == i,
            forall|j: int| 0 <= j < i ==> (#[trigger] out@[j])@ == rendered(types@[j]@),
        decreases types.len() - i,
    {
        out.push(types[i].to_string());
        i += 1;
    }
    assert(texts(&out) =~= rendered_all(types_view(types@)));
    out
}

/// A list of types as mathematical values.
pub open spec fn types_view(types: Seq<Type>) -> Seq<SpecType> {
    Seq::new(types.len(), |i: int| types[i]@)
}

/// A copy of a list of types.
pub fn clone_types(types: &Vec<Type>) -> (out: Vec<Type>)
    ensures
        types_view(out@) == types_view(types@),
{
    let mut out: Vec<Type> = Vec::new();
    let mut i: usize = 0;
    while i < types.len()
        invariant
            i <= types.len(),
            out@.len() == i,
            forall|j: int| 0 <= j < i ==> (#[trigger] out@[j])@ == types@[j]@,
        decreases types.len() - i,
    {
        out.push(types[i].clone());
        i += 1;
    }
    assert(types_view(out@) =~= types_view(types@));
    out
}

/// Whether two lists hold the same types in the same order.
pub fn same_types(a: &Vec<Type>, b: &Vec<Type>) -> (same: bool)
    ensures
        same == (types_view(a@) == types_view(b@)),
{
    if a.len() != b.len() {
        assert(types_view(a@).len() != types_view(b@).len());
        return false;
    }
    let mut i: usize = 0;
    while i < a.len()
        invariant
            i <= a.len(),
            a.len() == b.len(),
            forall|j: int| 0 <= j < i ==> a@[j]@ == b@[j]@,
        decreases a.len() - i,
    {
        if !a[i].same_as(&b[i]) {
            assert(types_view(a@)[i as int] != types_view(b@)[i as int]);
            return false;
        }
        i += 1;
    }
    assert(types_view(a@) =~= types_view(b@));
    true
}

} // verus!
